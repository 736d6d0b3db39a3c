//! The decisions and captions behind each view, apart from its layout.
pub mod browser;
pub mod lists;
pub mod log;
pub mod now_playing;
pub mod playlist_detail;
pub mod queue;
pub mod server_stats;
pub mod snapcast;
