//! Verified core of an MPD desktop client: shortcut mapping, palettes, row
//! state for song lists, text formatting for the views, and the state
//! machines behind navigation, toasts, Snapcast controls, the server list
//! and the album-art fetch queue.
pub mod keyset;
pub mod model;
pub mod text;
pub mod ui;
