//! The shared pieces of the views: row state, links, icons, the player bar.
pub mod album_grid;
pub mod icon;
pub mod link;
pub mod player_bar;
pub mod sidebar;
pub mod song_row;
