pub mod art;
pub mod art_fetch;
pub mod history;
pub mod library;
pub mod lyrics;
pub mod nav;
pub mod playback;
pub mod playlists;
pub mod servers;
pub mod settings;
pub mod snapcast;
pub mod state;
pub mod state_laws;
pub mod toast;
