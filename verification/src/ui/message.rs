//! The views the app can show, and the requests the library's logic hands
//! back to the shell that runs it.
use vstd::prelude::*;

verus! {

/// How one background album-art fetch ended.
///
/// The local stage (MPD `readpicture`/`albumart`) is cheap; a MusicBrainz
/// lookup costs seconds of globally serialized throttle time. Reporting "MPD
/// had nothing" as its own outcome is what lets the queue finish every local
/// cover first and defer the network work.
#[derive(Debug, Clone)]
pub enum ArtOutcome {
    /// Cover bytes, from either stage.
    Loaded(Vec<u8>),
    /// MPD answered and had no art (or couldn't be reached). MusicBrainz has
    /// not been asked yet.
    MpdMiss,
    /// Final: nothing anywhere, or a persisted negative already said so.
    Missing,
}

/// Every screen of the app.
#[derive(Debug, Clone, PartialEq, Eq)]
pub enum View {
    NowPlaying,
    Queue,
    Library,
    Artists,
    Albums,
    Genres,
    ArtistDetail(String),
    /// (album base name, album artist when known)
    AlbumDetail(String, Option<String>),
    GenreDetail(String),
    Browser,
    Search,
    Radio,
    CD,
    Outputs,
    Partitions,
    Snapcast,
    Settings,
    Log,
    ServerStats,
    RecentlyAdded,
    RecentlyPlayed,
    Playlists,
    PlaylistDetail(String),
    AddToPlaylist,
}

impl Default for View {
    fn default() -> (v: Self)
        ensures
            v == View::NowPlaying,
    {
        View::NowPlaying
    }
}

/// The requests that the library's decisions produce for the shell: what a
/// keypress, a link or a row action asks the app to do.
///
/// Times are in milliseconds and the volume is in whole percent, which is
/// the resolution MPD itself reports them in.
#[derive(Debug, Clone, PartialEq, Eq)]
pub enum Message {
    Play,
    Pause,
    Next,
    Previous,
    /// Seek to this many milliseconds into the current track.
    SeekTo(u64),
    /// Set the volume to this percentage.
    VolumeChanged(i64),
    FocusSearch,
    GoBack,
    ToggleRepeat,
    ToggleRandom,
    ToggleSingle,
    ToggleConsume,
    SetCrossfade(u32),
    ArtistSelected(String),
    /// (album base name, artist) — the artist is `None` only when no real
    /// artist is known.
    AlbumSelected(String, Option<String>),
    QueuePlay(u32),
    QueueMoveUp(u32),
    QueueMoveDown(u32),
    QueueRemove(u32),
    QueueAddOnly(String),
    QueueAddNext(String),
    OpenAddToPlaylist(Vec<String>),
    PlaylistPlayAt(String, u32),
    PlaylistMoveSongUp(String, u32),
    PlaylistMoveSongDown(String, u32),
    PlaylistRemoveSong(String, u32),
    SnapcastToggleGroupMute(String, bool),
    SnapcastToggleClientMute(String, bool),
    UpdateDatabase,
}

} // verus!
