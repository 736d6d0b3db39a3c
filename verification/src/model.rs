//! Library data as the interface logic reads it: album groups, recently
//! played albums, the album-art cache key, and Snapcast groups and clients.
use vstd::prelude::*;
use crate::text::owned;

verus! {

/// One album entry of a library listing: its disc-stripped name, the artist
/// it is grouped under (empty when the server could not group by album
/// artist) and the raw album tags (disc variants) it collapses.
#[derive(Debug, Clone)]
pub struct AlbumGroup {
    pub artist: String,
    pub base: String,
    pub variants: Vec<String>,
}

/// A recently played album.
#[derive(Debug, Clone)]
pub struct RecentAlbum {
    pub artist: String,
    pub album: String,
}

impl View for RecentAlbum {
    type V = (Seq<char>, Seq<char>);

    open spec fn view(&self) -> (Seq<char>, Seq<char>) {
        (self.artist@, self.album@)
    }
}

/// One play in a server's history: the track's file, title, artist, album
/// artist and album, and when it was played (seconds since the epoch).
#[derive(Debug, Clone, PartialEq, Eq)]
pub struct RecentlyPlayedEntry {
    pub file: String,
    pub title: String,
    pub artist: String,
    pub album_artist: String,
    pub album: String,
    pub played_at: i64,
}

/// The separator between artist and album in an art-cache key.
pub open spec fn key_separator() -> char {
    '\u{1f}'
}

/// The art-cache key of an album: `artist`, the unit separator, `album`.
pub open spec fn art_key(artist: Seq<char>, album: Seq<char>) -> Seq<char> {
    artist + seq![key_separator()] + album
}

/// The art-cache key of an album, `"{artist}\u{1f}{album}"`.
pub fn art_key_for(artist: &str, album: &str) -> (k: String)
    ensures
        k@ == art_key(artist@, album@),
{
    let sep = "\u{1f}";
    proof {
        reveal_strlit("\u{1f}");
    }
    let mut k = owned(artist);
    k.append(sep);
    k.append(album);
    k
}

/// One Snapcast client as the controls read it.
#[derive(Debug, Clone)]
pub struct SnapClient {
    pub id: String,
    pub name: String,
    pub connected: bool,
    pub muted: bool,
    /// Volume in percent, 0–100.
    pub volume: u8,
    /// Extra latency in milliseconds.
    pub latency: i32,
}

/// One Snapcast group: its clients, its mute state and the stream it plays.
#[derive(Debug, Clone)]
pub struct SnapGroup {
    pub id: String,
    pub name: String,
    pub muted: bool,
    pub stream_id: String,
    pub clients: Vec<SnapClient>,
}

/// A [`SnapClient`] as plain values.
pub struct SnapClientV {
    pub id: Seq<char>,
    pub name: Seq<char>,
    pub connected: bool,
    pub muted: bool,
    pub volume: u8,
    pub latency: i32,
}

impl View for SnapClient {
    type V = SnapClientV;

    open spec fn view(&self) -> SnapClientV {
        SnapClientV {
            id: self.id@,
            name: self.name@,
            connected: self.connected,
            muted: self.muted,
            volume: self.volume,
            latency: self.latency,
        }
    }
}

/// A [`SnapGroup`] as plain values.
pub struct SnapGroupV {
    pub id: Seq<char>,
    pub name: Seq<char>,
    pub muted: bool,
    pub stream_id: Seq<char>,
    pub clients: Seq<SnapClientV>,
}

impl View for SnapGroup {
    type V = SnapGroupV;

    open spec fn view(&self) -> SnapGroupV {
        SnapGroupV {
            id: self.id@,
            name: self.name@,
            muted: self.muted,
            stream_id: self.stream_id@,
            clients: self.clients@.map_values(|c: SnapClient| c@),
        }
    }
}

/// The views of a list of groups.
pub open spec fn groups_view(gs: Seq<SnapGroup>) -> Seq<SnapGroupV> {
    gs.map_values(|g: SnapGroup| g@)
}

/// The audio format MPD reports for the playing track.
#[derive(Debug, Clone, Copy)]
pub struct AudioFormat {
    pub sample_rate: u32,
    pub bits: u32,
    pub channels: u32,
}

/// MPD's single mode: off, on, or on for one track only.
#[derive(Debug, Clone, Copy, PartialEq, Eq, Structural)]
pub enum SingleState {
    Off,
    On,
    Oneshot,
}

/// MPD's consume mode: off, on, or on for one track only.
#[derive(Debug, Clone, Copy, PartialEq, Eq, Structural)]
pub enum ConsumeState {
    Off,
    On,
    Oneshot,
}

} // verus!
