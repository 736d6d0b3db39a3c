//! The stored-playlist forms: saving the queue, renaming, and the shared
//! "add to playlist" picker. A name is checked by the playlist-name rule
//! before these decisions see it: they take its verdict, the accepted name
//! or `None`.
use vstd::prelude::*;
use crate::text::str_eq;

verus! {

/// The error shown for a name the rule refuses.
pub const INVALID_NAME: &'static str = "Playlist names must not be empty or contain slashes.";

/// What "save queue as playlist" does.
#[derive(Debug, Clone, PartialEq, Eq)]
pub enum SaveQueue {
    /// Save the queue under this name and clear the name field.
    Save(String),
    /// Nothing: the queue is empty.
    Nothing,
    /// Show the invalid-name error.
    InvalidName,
}

/// What "save queue as playlist" does, given the checked name: save when the
/// name is valid and the queue is not empty, nothing for an empty queue,
/// the error for an invalid name.
pub fn save_queue(checked_name: Option<String>, queue_empty: bool) -> (r: SaveQueue)
    ensures
        match checked_name {
            Some(n) => if queue_empty { r == SaveQueue::Nothing } else { r matches SaveQueue::Save(m) && m@ == n@ },
            None => r == SaveQueue::InvalidName,
        },
{
    match checked_name {
        Some(n) => if queue_empty { SaveQueue::Nothing } else { SaveQueue::Save(n) },
        None => SaveQueue::InvalidName,
    }
}

/// What confirming a playlist rename does.
#[derive(Debug, Clone, PartialEq, Eq)]
pub enum RenamePlaylist {
    /// Rename the first playlist to the second.
    Rename(String, String),
    /// Nothing: no rename was open, or the name did not change.
    Nothing,
    /// Show the invalid-name error.
    InvalidName,
}

/// What confirming a playlist rename does, given the playlist being renamed
/// (if a rename is open) and the checked new name. The rename field is
/// closed and cleared whatever the outcome.
pub fn confirm_rename(renaming: Option<String>, checked_name: Option<String>) -> (r: RenamePlaylist)
    ensures
        match renaming {
            None => r == RenamePlaylist::Nothing,
            Some(old) => match checked_name {
                Some(new) => if new@ == old@ { r == RenamePlaylist::Nothing } else {
                    r matches RenamePlaylist::Rename(a, b) && a@ == old@ && b@ == new@
                },
                None => r == RenamePlaylist::InvalidName,
            },
        },
{
    match renaming {
        None => RenamePlaylist::Nothing,
        Some(old) => match checked_name {
            Some(new) => if str_eq(new.as_str(), old.as_str()) {
                RenamePlaylist::Nothing
            } else {
                RenamePlaylist::Rename(old, new)
            },
            None => RenamePlaylist::InvalidName,
        },
    }
}

/// What adding the picked songs to a new playlist does.
#[derive(Debug, Clone, PartialEq, Eq)]
pub enum AddToNew {
    /// Add these songs to the playlist of this name, clear the name field
    /// and go back.
    Add(String, Vec<String>),
    /// Nothing: no songs were picked.
    Nothing,
    /// Show the invalid-name error (the picker stays open).
    InvalidName,
}

/// What adding the picked songs to a new playlist does, given the checked
/// name and the songs picked (if the picker holds any).
pub fn add_to_new_playlist(checked_name: Option<String>, uris: Option<Vec<String>>) -> (r: AddToNew)
    ensures
        match checked_name {
            Some(n) => match uris {
                Some(u) => r matches AddToNew::Add(m, v) && m@ == n@ && v@ == u@,
                None => r == AddToNew::Nothing,
            },
            None => r == AddToNew::InvalidName,
        },
{
    match checked_name {
        Some(n) => match uris {
            Some(u) => AddToNew::Add(n, u),
            None => AddToNew::Nothing,
        },
        None => AddToNew::InvalidName,
    }
}

} // verus!
