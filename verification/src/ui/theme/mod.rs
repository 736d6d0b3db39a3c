//! Colours.
pub mod colors;
