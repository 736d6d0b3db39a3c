pub mod app;
pub mod message;
pub mod shortcut;
pub mod theme;
pub mod views;
pub mod widgets;
