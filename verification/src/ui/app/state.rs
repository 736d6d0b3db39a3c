//! The app's state machine: the state the interface keeps between events,
//! and for each event the next state and the work the shell has to do
//! (connect, load a list, purge the stores, start art fetches, ...).
//!
//! The shell owns the I/O: it performs each [`Action`] and reports back
//! with an [`Event`]. Everything the app decides lives here.
use vstd::prelude::*;
use vstd::view::View as DataView;
use crate::keyset::KeySet;
use crate::model::{groups_view, RecentlyPlayedEntry, SnapGroup, SnapGroupV};
use crate::text::{decimal, decimal_string, trim, trimmed};
use crate::ui::app::art::{drain_fetches, drained, settled, ArtFetch, ArtQueue, ArtState, FetchV};
use crate::ui::app::lyrics::{lyrics_decision, LookupStep};
use crate::ui::app::nav::{opened, went_back, NavState, Navigator};
use crate::ui::app::servers::{
    added_server, can_add, edit_reconnects, edited_servers, first_named, has_named, opt_chars, rename_ok, renamed, restored_partition, server_partition, servers_view, startup_server,
    without_named, ServerEntry, ServerList, ServerListV,
};
use crate::ui::app::settings::{art_cache_size_from, cache_size_of, SettingsForm};
use crate::ui::app::snapcast::{
    flat, group_with_mute, group_with_stream, groups_with_client_mute, groups_with_volume, last_muted, last_volume,
    set_client_volume, set_group_stream, toggle_client_mute, toggle_group_mute, SnapcastPanel,
};
use crate::ui::app::toast::{expired_at, fresh, law_prune_drops_the_expired, law_push_keeps_newest, pushed, Toast, Toasts, MAX_TOASTS};
use crate::ui::app::history::{record_play, recorded};
use crate::ui::message::{ArtOutcome, View};

verus! {

/// What the shell is asked to do after an event.
#[derive(Debug)]
pub enum Action {
    /// Open a connection to the server in use.
    Connect,
    /// Reconnect, unless the connection is in fact still up.
    Reconnect,
    /// Switch to this partition (when there is one), then refresh everything.
    RestorePartition(Option<String>),
    /// Load status, queue, outputs and the rest after connecting.
    FetchAll,
    /// Fetch the covers of the recently played albums.
    FetchRecentArt,
    /// Read this server's play history from the store and report it.
    LoadHistory(String),
    /// Store an empty play history for this server.
    ClearHistory(String),
    /// Delete this (removed) server's play history from the store.
    DeleteHistory(String),
    /// Store the play history of this server (the state's history).
    StoreHistory(String),
    /// Clear the queue, load this stored playlist and play from this
    /// position.
    PlayPlaylist(String, u32),
    /// Add this stored playlist to the queue (and play if stopped).
    AppendPlaylist(String),
    /// Delete this stored playlist, then reload the list.
    DeletePlaylist(String),
    /// Clear the queue.
    ClearQueue,
    /// Search the library for this query.
    Search(String),
    /// Clear the stored art, lyrics, biographies and lookups, then report.
    PurgeStores,
    /// Measure the art cache on disk and report its size.
    LoadCacheSize,
    /// Queue the covers of the list on screen.
    QueueListArt,
    /// Load the server statistics.
    FetchStats,
    /// Start these art fetches.
    StartArt(Vec<ArtFetch>),
    /// Use the dark or the light palette.
    ApplyTheme(bool),
    /// Give the art cache this limit, in megabytes.
    SetArtCacheLimit(u32),
    /// Save the configuration.
    SaveConfig,
    /// Poll the player status.
    RefreshStatus,
    /// Keep the active synced-lyrics line in view.
    LyricsAutoscroll,
    /// Re-read the log.
    RefreshLog,
    /// Scroll the lyrics pane back to the top.
    ResetLyricsScroll,
    LoadArtists,
    LoadAlbums,
    LoadGenres,
    LoadBrowser,
    LoadOutputs,
    LoadPartitions,
    LoadPlaylists,
    LoadRecentlyAdded,
    /// Send a Snapcast client's volume and mute state: (client, percent, muted).
    SnapSetVolume(String, u8, bool),
    /// Send a Snapcast group's mute state.
    SnapSetGroupMute(String, bool),
    /// Send the stream a Snapcast group plays: (group, stream).
    SnapSetGroupStream(String, String),
    /// Load the Snapcast status, through the client built for this address
    /// (`None`: no client yet; the shell builds one when the configured
    /// address differs and reports [`Event::SnapcastClientBuilt`]).
    LoadSnapcast(Option<String>),
}

/// An [`Action`] as plain values.
pub enum ActionV {
    Connect,
    Reconnect,
    RestorePartition(Option<Seq<char>>),
    FetchAll,
    FetchRecentArt,
    LoadHistory(Seq<char>),
    ClearHistory(Seq<char>),
    DeleteHistory(Seq<char>),
    StoreHistory(Seq<char>),
    PlayPlaylist(Seq<char>, u32),
    AppendPlaylist(Seq<char>),
    DeletePlaylist(Seq<char>),
    ClearQueue,
    Search(Seq<char>),
    PurgeStores,
    LoadCacheSize,
    QueueListArt,
    FetchStats,
    StartArt(Seq<FetchV>),
    ApplyTheme(bool),
    SetArtCacheLimit(u32),
    SaveConfig,
    RefreshStatus,
    LyricsAutoscroll,
    RefreshLog,
    ResetLyricsScroll,
    LoadArtists,
    LoadAlbums,
    LoadGenres,
    LoadBrowser,
    LoadOutputs,
    LoadPartitions,
    LoadPlaylists,
    LoadRecentlyAdded,
    SnapSetVolume(Seq<char>, u8, bool),
    SnapSetGroupMute(Seq<char>, bool),
    SnapSetGroupStream(Seq<char>, Seq<char>),
    LoadSnapcast(Option<Seq<char>>),
}

impl DataView for Action {
    type V = ActionV;

    open spec fn view(&self) -> ActionV {
        match self {
            Action::Connect => ActionV::Connect,
            Action::Reconnect => ActionV::Reconnect,
            Action::RestorePartition(p) => ActionV::RestorePartition(opt_chars(*p)),
            Action::FetchAll => ActionV::FetchAll,
            Action::FetchRecentArt => ActionV::FetchRecentArt,
            Action::LoadHistory(n) => ActionV::LoadHistory(n@),
            Action::ClearHistory(n) => ActionV::ClearHistory(n@),
            Action::DeleteHistory(n) => ActionV::DeleteHistory(n@),
            Action::StoreHistory(n) => ActionV::StoreHistory(n@),
            Action::PlayPlaylist(n, p) => ActionV::PlayPlaylist(n@, *p),
            Action::AppendPlaylist(n) => ActionV::AppendPlaylist(n@),
            Action::DeletePlaylist(n) => ActionV::DeletePlaylist(n@),
            Action::ClearQueue => ActionV::ClearQueue,
            Action::Search(q) => ActionV::Search(q@),
            Action::PurgeStores => ActionV::PurgeStores,
            Action::LoadCacheSize => ActionV::LoadCacheSize,
            Action::QueueListArt => ActionV::QueueListArt,
            Action::FetchStats => ActionV::FetchStats,
            Action::StartArt(f) => ActionV::StartArt(f@.map_values(|x: ArtFetch| x@)),
            Action::ApplyTheme(d) => ActionV::ApplyTheme(*d),
            Action::SetArtCacheLimit(mb) => ActionV::SetArtCacheLimit(*mb),
            Action::SaveConfig => ActionV::SaveConfig,
            Action::RefreshStatus => ActionV::RefreshStatus,
            Action::LyricsAutoscroll => ActionV::LyricsAutoscroll,
            Action::RefreshLog => ActionV::RefreshLog,
            Action::ResetLyricsScroll => ActionV::ResetLyricsScroll,
            Action::LoadArtists => ActionV::LoadArtists,
            Action::LoadAlbums => ActionV::LoadAlbums,
            Action::LoadGenres => ActionV::LoadGenres,
            Action::LoadBrowser => ActionV::LoadBrowser,
            Action::LoadOutputs => ActionV::LoadOutputs,
            Action::LoadPartitions => ActionV::LoadPartitions,
            Action::LoadPlaylists => ActionV::LoadPlaylists,
            Action::LoadRecentlyAdded => ActionV::LoadRecentlyAdded,
            Action::SnapSetVolume(c, p, m) => ActionV::SnapSetVolume(c@, *p, *m),
            Action::SnapSetGroupMute(g, m) => ActionV::SnapSetGroupMute(g@, *m),
            Action::SnapSetGroupStream(g, st) => ActionV::SnapSetGroupStream(g@, st@),
            Action::LoadSnapcast(a) => ActionV::LoadSnapcast(opt_chars(*a)),
        }
    }
}

/// The actions' views, in order.
pub open spec fn actions_view(a: Seq<Action>) -> Seq<ActionV> {
    a.map_values(|x: Action| x@)
}

/// What happened: the user's requests and the shell's reports.
#[derive(Debug)]
pub enum Event {
    /// Connect to the server in use.
    Connect,
    /// The connection is up.
    Connected,
    /// Connecting failed, for this reason.
    ConnectFailed(String),
    /// The partition is restored: the app is ready.
    RefreshAll,
    /// The slow timer that runs while disconnected.
    ConnectionTick,
    /// The connection dropped.
    Disconnected,
    /// The 500 ms timer, with each toast's age in whole seconds, oldest
    /// first (see [`tick`], which reads them from the clock).
    Tick(Vec<u64>),
    NavigateTo(View),
    GoBack,
    /// The server's play history, as read from the store.
    RecentlyPlayedLoaded(Vec<RecentlyPlayedEntry>),
    ClearRecentlyPlayed,
    /// A press of "Clear caches" (it takes two).
    ClearCaches,
    CancelClearCaches,
    /// The stores are purged.
    CachesCleared,
    /// The art cache's size on disk, in bytes.
    CacheSizeLoaded(u64),
    SwitchServer(String),
    SetDefaultServer(String),
    RemoveServer(String),
    /// Start renaming this server.
    StartRename(String),
    RenameInputChanged(String),
    ConfirmRename,
    CancelRename,
    CancelEditServer,
    ToggleLyrics,
    ToggleLyricsFollow,
    ToggleArtistBio,
    ToggleAlbumBio,
    LogToggleMpdOnly,
    ToggleRecentlyPlayedMode,
    ToggleAlbumGridView,
    /// Lyrics (or their absence) are known for this track key.
    LyricsLoaded(String),
    /// A biography (or its absence) is known for this artist.
    ArtistBioLoaded(String),
    /// A biography (or its absence) is known for this album.
    AlbumBioLoaded(String),
    /// Cover bytes for this key were decoded and are shown.
    ArtLoaded(String),
    /// A queued art fetch for this key ended.
    AlbumArtFetched(String, ArtOutcome),
    /// A database update was started.
    DatabaseUpdating,
    ErrorOccurred(String),
    DismissToast,
    SetDarkMode(bool),
    SnapcastStatusLoaded(Vec<SnapGroup>, Vec<String>),
    SnapcastUnreachable(String),
    SnapcastToggleShowInactive,
    /// The shell built a Snapcast client for this address.
    SnapcastClientBuilt(String),
    /// Set a client's volume: (client, percent).
    SnapcastSetVolume(String, u8),
    /// Toggle a client's mute: (client, muted before).
    SnapcastToggleClientMute(String, bool),
    /// Toggle a group's mute: (group, muted before).
    SnapcastToggleGroupMute(String, bool),
    /// Play a stream in a group: (group, stream).
    SnapcastSetGroupStream(String, String),
    /// Play this stored playlist from its start.
    PlaylistPlay(String),
    /// Play this stored playlist from this position.
    PlaylistPlayAt(String, u32),
    /// Add this stored playlist to the queue.
    PlaylistAppend(String),
    PlaylistDelete(String),
    QueueClear,
    /// Any other change to the queue: adding or playing songs, an album, a
    /// station or a CD (the MPD commands are the shell's).
    QueueEdited,
    /// The play recorder counted a play, stamped with the time it was
    /// recorded.
    PlayRecorded(RecentlyPlayedEntry),
    /// The "add server" form's fields were edited.
    ServerNameChanged(String),
    HostChanged(String),
    PortChanged(String),
    PasswordChanged(String),
    AddServer,
    /// Open this server's details for editing.
    StartEditServer(String),
    /// The "edit server" form's fields were edited.
    EditServerHost(String),
    EditServerPort(String),
    EditServerPassword(String),
    EditServerSnapHost(String),
    EditServerSnapPort(String),
    ConfirmEditServer,
    SearchQueryChanged(String),
    SearchSubmit,
    /// The art cache size field was edited.
    ArtCacheSizeChanged(String),
    /// Save the art cache size field.
    SaveArtCacheSize,
}

/// The text fields of the settings and search forms.
pub struct Forms {
    /// The "add server" form.
    pub add_name: String,
    pub add_host: String,
    pub add_port: String,
    pub add_password: String,
    /// The "edit server" form.
    pub edit_host: String,
    pub edit_port: String,
    pub edit_password: String,
    pub edit_snap_host: String,
    pub edit_snap_port: String,
    pub search_query: String,
}

/// [`Forms`] as plain values.
pub struct FormsV {
    pub add_name: Seq<char>,
    pub add_host: Seq<char>,
    pub add_port: Seq<char>,
    pub add_password: Seq<char>,
    pub edit_host: Seq<char>,
    pub edit_port: Seq<char>,
    pub edit_password: Seq<char>,
    pub edit_snap_host: Seq<char>,
    pub edit_snap_port: Seq<char>,
    pub search_query: Seq<char>,
}

impl DataView for Forms {
    type V = FormsV;

    open spec fn view(&self) -> FormsV {
        FormsV {
            add_name: self.add_name@,
            add_host: self.add_host@,
            add_port: self.add_port@,
            add_password: self.add_password@,
            edit_host: self.edit_host@,
            edit_port: self.edit_port@,
            edit_password: self.edit_password@,
            edit_snap_host: self.edit_snap_host@,
            edit_snap_port: self.edit_snap_port@,
            search_query: self.search_query@,
        }
    }
}

/// All fields empty.
fn empty_forms() -> (f: Forms)
    ensures
        f@ == empty_forms_v(),
{
    let f = Forms {
        add_name: String::new(),
        add_host: String::new(),
        add_port: String::new(),
        add_password: String::new(),
        edit_host: String::new(),
        edit_port: String::new(),
        edit_password: String::new(),
        edit_snap_host: String::new(),
        edit_snap_port: String::new(),
        search_query: String::new(),
    };
    assert(f@.add_name =~= Seq::<char>::empty());
    assert(f@.add_host =~= Seq::<char>::empty());
    assert(f@.add_port =~= Seq::<char>::empty());
    assert(f@.add_password =~= Seq::<char>::empty());
    assert(f@.edit_host =~= Seq::<char>::empty());
    assert(f@.edit_port =~= Seq::<char>::empty());
    assert(f@.edit_password =~= Seq::<char>::empty());
    assert(f@.edit_snap_host =~= Seq::<char>::empty());
    assert(f@.edit_snap_port =~= Seq::<char>::empty());
    assert(f@.search_query =~= Seq::<char>::empty());
    f
}

/// All fields empty.
pub open spec fn empty_forms_v() -> FormsV {
    FormsV {
        add_name: Seq::empty(),
        add_host: Seq::empty(),
        add_port: Seq::empty(),
        add_password: Seq::empty(),
        edit_host: Seq::empty(),
        edit_port: Seq::empty(),
        edit_password: Seq::empty(),
        edit_snap_host: Seq::empty(),
        edit_snap_port: Seq::empty(),
        search_query: Seq::empty(),
    }
}

/// Everything the interface keeps between events.
pub struct AppState {
    pub nav: Navigator,
    pub toasts: Toasts,
    pub art: ArtQueue,
    pub servers: ServerList,
    pub settings: SettingsForm,
    pub snapcast: SnapcastPanel,
    /// The address the Snapcast client was built for, while there is one.
    pub snapcast_client: Option<String>,
    pub connected: bool,
    /// The latest status line: the text of the latest toast, cleared when a
    /// connection succeeds.
    pub last_error: Option<String>,
    /// The server in use's play history, most recent first.
    pub recently_played: Vec<RecentlyPlayedEntry>,
    /// Track keys whose lyrics (or their absence) are known.
    pub lyrics: KeySet,
    /// Artists whose biography (or its absence) is known.
    pub artist_bios: KeySet,
    /// Albums whose biography (or its absence) is known.
    pub album_bios: KeySet,
    /// The art cache's size on disk, once measured.
    pub cache_size_bytes: Option<u64>,
    /// The art cache limit, in megabytes.
    pub art_cache_mb: u32,
    pub dark_mode: bool,
    /// The partition saved before servers had their own.
    pub legacy_partition: Option<String>,
    /// The new name typed for the server being renamed.
    pub rename_input: String,
    pub show_lyrics: bool,
    /// Does the synced-lyrics pane follow the song?
    pub lyrics_follow: bool,
    pub show_artist_bio: bool,
    pub show_album_bio: bool,
    /// Does the log show MPD's entries only?
    pub log_show_mpd_only: bool,
    /// Is the play history grouped by album?
    pub recently_played_show_albums: bool,
    /// Are album lists shown as a grid of covers?
    pub album_grid_view: bool,
    /// The stored playlist the queue was loaded from, while no other change
    /// to the queue says otherwise (MPD itself does not know).
    pub playing_from_playlist: Option<String>,
    pub forms: Forms,
}

/// An [`AppState`] as plain values.
pub struct AppV {
    pub nav: NavState,
    pub toasts: Seq<(Seq<char>, bool)>,
    pub art: ArtState,
    pub servers: ServerListV,
    pub confirm_clear_caches: bool,
    pub editing: Option<Seq<char>>,
    pub renaming: Option<Seq<char>>,
    pub cache_size_input: Seq<char>,
    pub snap_groups: Seq<SnapGroupV>,
    pub snap_streams: Seq<String>,
    pub snap_error: Option<Seq<char>>,
    pub snap_show_inactive: bool,
    pub snap_client: Option<Seq<char>>,
    pub connected: bool,
    pub last_error: Option<Seq<char>>,
    pub recently_played: Seq<RecentlyPlayedEntry>,
    pub lyrics: Set<Seq<char>>,
    pub artist_bios: Set<Seq<char>>,
    pub album_bios: Set<Seq<char>>,
    pub cache_size_bytes: Option<u64>,
    pub art_cache_mb: u32,
    pub dark_mode: bool,
    pub legacy_partition: Option<Seq<char>>,
    pub rename_input: Seq<char>,
    pub show_lyrics: bool,
    pub lyrics_follow: bool,
    pub show_artist_bio: bool,
    pub show_album_bio: bool,
    pub log_show_mpd_only: bool,
    pub recently_played_show_albums: bool,
    pub album_grid_view: bool,
    pub playing_from_playlist: Option<Seq<char>>,
    pub forms: FormsV,
}

impl DataView for AppState {
    type V = AppV;

    open spec fn view(&self) -> AppV {
        AppV {
            nav: self.nav@,
            toasts: self.toasts@,
            art: self.art@,
            servers: self.servers@,
            confirm_clear_caches: self.settings.confirm_clear_caches,
            editing: opt_chars(self.settings.editing),
            renaming: opt_chars(self.settings.renaming),
            cache_size_input: self.settings.cache_size_input@,
            snap_groups: groups_view(self.snapcast.groups@),
            snap_streams: self.snapcast.streams@,
            snap_error: opt_chars(self.snapcast.error),
            snap_show_inactive: self.snapcast.show_inactive,
            snap_client: opt_chars(self.snapcast_client),
            connected: self.connected,
            last_error: opt_chars(self.last_error),
            recently_played: self.recently_played@,
            lyrics: self.lyrics@,
            artist_bios: self.artist_bios@,
            album_bios: self.album_bios@,
            cache_size_bytes: self.cache_size_bytes,
            art_cache_mb: self.art_cache_mb,
            dark_mode: self.dark_mode,
            legacy_partition: opt_chars(self.legacy_partition),
            rename_input: self.rename_input@,
            show_lyrics: self.show_lyrics,
            lyrics_follow: self.lyrics_follow,
            show_artist_bio: self.show_artist_bio,
            show_album_bio: self.show_album_bio,
            log_show_mpd_only: self.log_show_mpd_only,
            recently_played_show_albums: self.recently_played_show_albums,
            album_grid_view: self.album_grid_view,
            playing_from_playlist: opt_chars(self.playing_from_playlist),
            forms: self.forms@,
        }
    }
}

impl AppState {
    /// The parts with invariants of their own keep them.
    pub open spec fn wf(&self) -> bool {
        &&& self.toasts.wf()
        &&& self.art.wf()
        &&& self.lyrics.wf()
        &&& self.artist_bios.wf()
        &&& self.album_bios.wf()
    }
}

/// No art known and nothing queued.
pub open spec fn no_art() -> ArtState {
    ArtState {
        loaded: Set::empty(),
        missing: Set::empty(),
        queue: Seq::empty(),
        pending: Set::empty(),
        inflight: 0,
        mb_queue: Seq::empty(),
        mb_pending: Set::empty(),
        mb_inflight: 0,
    }
}

/// The art queues emptied; loaded covers and known misses kept.
pub open spec fn abandoned(a: ArtState) -> ArtState {
    ArtState {
        queue: Seq::empty(),
        pending: Set::empty(),
        inflight: 0,
        mb_queue: Seq::empty(),
        mb_pending: Set::empty(),
        mb_inflight: 0,
        ..a
    }
}

/// A toast shown: it joins the toasts, and its text becomes the status line.
pub open spec fn toasted(s: AppV, text: Seq<char>, is_error: bool) -> AppV {
    AppV { last_error: Some(text), toasts: pushed(s.toasts, (text, is_error)), ..s }
}

/// Switching to the server `name`. Nothing happens when it is already in
/// use. Otherwise the connection is down until the new one is up, the
/// history is that server's (loaded before connecting), the art still
/// queued for the old library is abandoned (loaded covers and known misses
/// hold on any server), and the Snapcast client and what it showed are
/// dropped, since they belonged to the old server.
pub open spec fn switched(s: AppV, name: Seq<char>) -> (AppV, Seq<ActionV>) {
    if name == s.servers.active {
        (s, seq![])
    } else {
        (
            AppV {
                servers: ServerListV { active: name, ..s.servers },
                connected: false,
                legacy_partition: match server_partition(s.servers.servers, name) {
                    Some(p) => p,
                    None => s.legacy_partition,
                },
                recently_played: Seq::empty(),
                art: abandoned(s.art),
                snap_groups: Seq::empty(),
                snap_streams: Seq::empty(),
                snap_error: None,
                snap_client: None,
                ..s
            },
            seq![ActionV::LoadHistory(name), ActionV::Connect],
        )
    }
}

/// Removing the server `name` (refused while it is the only one): a default
/// that named it moves to the first server left, its history is deleted,
/// and when it was in use the first server left is switched to.
pub open spec fn removed(s: AppV, name: Seq<char>) -> (AppV, Seq<ActionV>) {
    if s.servers.servers.len() <= 1 {
        (s, seq![])
    } else {
        let rest = without_named(s.servers.servers, name);
        let s1 = AppV {
            servers: ServerListV {
                servers: rest,
                default_server: if s.servers.default_server == Some(name) {
                    if rest.len() > 0 { Some(rest[0].name) } else { None }
                } else {
                    s.servers.default_server
                },
                active: s.servers.active,
            },
            ..s
        };
        let done = seq![ActionV::SaveConfig, ActionV::DeleteHistory(name)];
        if s.servers.active == name && rest.len() > 0 {
            let r = switched(s1, rest[0].name);
            (r.0, done + r.1)
        } else {
            (s1, done)
        }
    }
}

/// Confirming a rename: the typed name, trimmed, is taken when it is not
/// blank and no other server has it; the rename form closes either way.
pub open spec fn rename_confirmed(s: AppV) -> (AppV, Seq<ActionV>) {
    match s.renaming {
        Some(old) => {
            let new_name = trimmed(s.rename_input);
            let ok = rename_ok(s.servers.servers, old, new_name);
            (
                AppV {
                    servers: if ok { renamed(s.servers, old, new_name) } else { s.servers },
                    renaming: None,
                    rename_input: Seq::empty(),
                    ..s
                },
                if ok { seq![ActionV::SaveConfig] } else { seq![] },
            )
        },
        None => (AppV { rename_input: Seq::empty(), ..s }, seq![]),
    }
}

/// Entering `v`: what it loads, and the transient state Settings resets
/// (a purge still armed, an edit or a rename still open, a half-typed cache
/// size). Snapcast is loaded only when the server in use is configured.
pub open spec fn entered(s: AppV, v: View) -> (AppV, Seq<ActionV>) {
    match v {
        View::NowPlaying => (s, seq![ActionV::ResetLyricsScroll]),
        View::Artists => (s, seq![ActionV::LoadArtists]),
        View::Library => (s, seq![ActionV::LoadArtists]),
        View::Albums => (s, seq![ActionV::LoadAlbums]),
        View::Genres => (s, seq![ActionV::LoadGenres]),
        View::Browser => (s, seq![ActionV::LoadBrowser]),
        View::Outputs => (s, seq![ActionV::LoadOutputs]),
        View::Partitions => (s, seq![ActionV::LoadPartitions]),
        View::Playlists => (s, seq![ActionV::LoadPlaylists]),
        View::ServerStats => (s, seq![ActionV::FetchStats]),
        View::Settings => (
            AppV {
                confirm_clear_caches: false,
                editing: None,
                renaming: None,
                cache_size_input: decimal(s.art_cache_mb as nat),
                ..s
            },
            seq![ActionV::LoadCacheSize],
        ),
        View::RecentlyPlayed => (s, seq![ActionV::QueueListArt]),
        View::RecentlyAdded => (s, seq![ActionV::LoadRecentlyAdded]),
        View::Snapcast => (
            s,
            if has_named(s.servers.servers, s.servers.active) {
                seq![ActionV::LoadSnapcast(s.snap_client)]
            } else {
                seq![]
            },
        ),
        _ => (s, seq![]),
    }
}

/// The work of the periodic tick: the log always; while connected, the
/// player status and the lyrics position, and the statistics while they are
/// on screen.
pub open spec fn tick_actions(s: AppV) -> Seq<ActionV> {
    if s.connected {
        if s.nav.0 == View::ServerStats {
            seq![ActionV::RefreshLog, ActionV::RefreshStatus, ActionV::LyricsAutoscroll, ActionV::FetchStats]
        } else {
            seq![ActionV::RefreshLog, ActionV::RefreshStatus, ActionV::LyricsAutoscroll]
        }
    } else {
        seq![ActionV::RefreshLog]
    }
}

/// The tick: the toasts whose age (given per toast, oldest first) has
/// reached their lifetime go, and the periodic work is asked for.
pub open spec fn ticked(s: AppV, ages: Seq<u64>) -> (AppV, Seq<ActionV>) {
    (AppV { toasts: fresh(s.toasts, ages), ..s }, tick_actions(s))
}

/// [`spec_step`] on the events of connecting.
pub open spec fn spec_connection(s: AppV, e: Event) -> (AppV, Seq<ActionV>) {
    match e {
        Event::Connect => (s, seq![ActionV::Connect]),
        Event::Connected => (
            AppV { last_error: None, ..s },
            seq![ActionV::RestorePartition(restored_partition(s.servers, s.legacy_partition))],
        ),
        Event::ConnectFailed(msg) => (toasted(AppV { connected: false, ..s }, msg@, true), seq![]),
        Event::RefreshAll => (AppV { connected: true, ..s }, seq![ActionV::FetchAll, ActionV::FetchRecentArt]),
        Event::ConnectionTick => (s, if s.connected { seq![] } else { seq![ActionV::Reconnect] }),
        Event::Disconnected => (AppV { connected: false, ..s }, seq![]),
        _ => (s, seq![]),
    }
}

/// [`spec_step`] on the events of navigation, the tick and the history.
pub open spec fn spec_navigation(s: AppV, e: Event) -> (AppV, Seq<ActionV>) {
    match e {
        Event::Tick(ages) => ticked(s, ages@),
        Event::NavigateTo(v) => entered(AppV { nav: opened(s.nav, v), ..s }, v),
        Event::GoBack => (AppV { nav: went_back(s.nav), ..s }, seq![]),
        Event::RecentlyPlayedLoaded(entries) => (AppV { recently_played: entries@, ..s }, seq![]),
        Event::ClearRecentlyPlayed => (
            AppV { recently_played: Seq::empty(), ..s },
            seq![ActionV::ClearHistory(s.servers.active)],
        ),
        _ => (s, seq![]),
    }
}

/// [`spec_step`] on the events of clearing caches.
pub open spec fn spec_caches(s: AppV, e: Event) -> (AppV, Seq<ActionV>) {
    match e {
        Event::ClearCaches => if !s.confirm_clear_caches {
            (AppV { confirm_clear_caches: true, ..s }, seq![])
        } else {
            (
                AppV {
                    confirm_clear_caches: false,
                    art: no_art(),
                    lyrics: Set::empty(),
                    artist_bios: Set::empty(),
                    album_bios: Set::empty(),
                    ..s
                },
                seq![ActionV::PurgeStores],
            )
        },
        Event::CancelClearCaches => (AppV { confirm_clear_caches: false, ..s }, seq![]),
        Event::CachesCleared => (
            AppV { cache_size_bytes: Some(0), ..s },
            seq![ActionV::QueueListArt, ActionV::LoadCacheSize],
        ),
        Event::CacheSizeLoaded(bytes) => (AppV { cache_size_bytes: Some(bytes), ..s }, seq![]),
        _ => (s, seq![]),
    }
}

/// [`spec_step`] on the events of choosing servers.
pub open spec fn spec_servers(s: AppV, e: Event) -> (AppV, Seq<ActionV>) {
    match e {
        Event::SwitchServer(name) => switched(s, name@),
        Event::SetDefaultServer(name) => {
            let s1 = AppV { servers: ServerListV { default_server: Some(name@), ..s.servers }, ..s };
            let r = switched(s1, name@);
            (r.0, seq![ActionV::SaveConfig] + r.1)
        },
        Event::RemoveServer(name) => removed(s, name@),
        _ => (s, seq![]),
    }
}

/// [`spec_step`] on the events of the rename and edit forms.
pub open spec fn spec_rename(s: AppV, e: Event) -> (AppV, Seq<ActionV>) {
    match e {
        Event::StartRename(name) => (AppV { renaming: Some(name@), rename_input: name@, ..s }, seq![]),
        Event::RenameInputChanged(text) => (AppV { rename_input: text@, ..s }, seq![]),
        Event::ConfirmRename => rename_confirmed(s),
        Event::CancelRename => (AppV { renaming: None, rename_input: Seq::empty(), ..s }, seq![]),
        Event::CancelEditServer => (AppV { editing: None, ..s }, seq![]),
        _ => (s, seq![]),
    }
}

/// [`spec_step`] on the events of display toggles.
pub open spec fn spec_toggles(s: AppV, e: Event) -> (AppV, Seq<ActionV>) {
    match e {
        Event::ToggleLyrics => (AppV { show_lyrics: !s.show_lyrics, ..s }, seq![]),
        Event::ToggleLyricsFollow => (
            AppV { lyrics_follow: !s.lyrics_follow, ..s },
            if !s.lyrics_follow { seq![ActionV::LyricsAutoscroll] } else { seq![] },
        ),
        Event::ToggleArtistBio => (AppV { show_artist_bio: !s.show_artist_bio, ..s }, seq![]),
        Event::ToggleAlbumBio => (AppV { show_album_bio: !s.show_album_bio, ..s }, seq![]),
        Event::LogToggleMpdOnly => (AppV { log_show_mpd_only: !s.log_show_mpd_only, ..s }, seq![]),
        Event::ToggleRecentlyPlayedMode => (
            AppV { recently_played_show_albums: !s.recently_played_show_albums, ..s },
            seq![],
        ),
        Event::ToggleAlbumGridView => (
            AppV { album_grid_view: !s.album_grid_view, ..s },
            seq![ActionV::SaveConfig, ActionV::QueueListArt],
        ),
        _ => (s, seq![]),
    }
}

/// [`spec_step`] on the events of lyrics, biographies and art.
pub open spec fn spec_known(s: AppV, e: Event) -> (AppV, Seq<ActionV>) {
    match e {
        Event::LyricsLoaded(key) => (AppV { lyrics: s.lyrics.insert(key@), ..s }, seq![]),
        Event::ArtistBioLoaded(name) => (AppV { artist_bios: s.artist_bios.insert(name@), ..s }, seq![]),
        Event::AlbumBioLoaded(name) => (AppV { album_bios: s.album_bios.insert(name@), ..s }, seq![]),
        Event::ArtLoaded(key) => (
            AppV { art: ArtState { loaded: s.art.loaded.insert(key@), ..s.art }, ..s },
            seq![],
        ),
        Event::AlbumArtFetched(key, outcome) => (
            AppV { art: drained(settled(s.art, key@, outcome)), ..s },
            seq![ActionV::StartArt(drain_fetches(settled(s.art, key@, outcome)))],
        ),
        _ => (s, seq![]),
    }
}

/// [`spec_step`] on the events of toasts and the palette.
pub open spec fn spec_toasts(s: AppV, e: Event) -> (AppV, Seq<ActionV>) {
    match e {
        Event::DatabaseUpdating => (toasted(s, "Database update started"@, false), seq![ActionV::FetchStats]),
        Event::ErrorOccurred(msg) => (toasted(s, msg@, true), seq![]),
        Event::DismissToast => (
            AppV { toasts: if s.toasts.len() > 0 { s.toasts.drop_first() } else { s.toasts }, ..s },
            seq![],
        ),
        Event::SetDarkMode(dark) => (
            AppV { dark_mode: dark, ..s },
            seq![ActionV::ApplyTheme(dark), ActionV::SaveConfig],
        ),
        _ => (s, seq![]),
    }
}

/// [`spec_step`] on the events of Snapcast.
pub open spec fn spec_snapcast(s: AppV, e: Event) -> (AppV, Seq<ActionV>) {
    match e {
        Event::SnapcastStatusLoaded(groups, streams) => (
            AppV { snap_groups: groups_view(groups@), snap_streams: streams@, snap_error: None, ..s },
            seq![],
        ),
        Event::SnapcastUnreachable(msg) => (AppV { snap_error: Some(msg@), ..s }, seq![]),
        Event::SnapcastToggleShowInactive => (
            AppV { snap_show_inactive: !s.snap_show_inactive, ..s },
            seq![],
        ),
        Event::SnapcastClientBuilt(addr) => (AppV { snap_client: Some(addr@), ..s }, seq![]),
        _ => (s, seq![]),
    }
}

/// A request for the Snapcast server goes out only while there is a client
/// to send it through.
pub open spec fn snap_send(s: AppV, a: ActionV) -> Seq<ActionV> {
    if s.snap_client is Some { seq![a] } else { seq![] }
}

/// [`spec_step`] on the events of the Snapcast controls: the change is
/// shown at once in every listing of the client or group, and sent.
pub open spec fn spec_snap_controls(s: AppV, e: Event) -> (AppV, Seq<ActionV>) {
    match e {
        Event::SnapcastSetVolume(id, percent) => (
            AppV { snap_groups: groups_with_volume(s.snap_groups, id@, percent), ..s },
            snap_send(s, ActionV::SnapSetVolume(id@, percent, last_muted(flat(s.snap_groups), id@, false))),
        ),
        Event::SnapcastToggleClientMute(id, was_muted) => (
            AppV { snap_groups: groups_with_client_mute(s.snap_groups, id@, !was_muted), ..s },
            snap_send(s, ActionV::SnapSetVolume(id@, last_volume(flat(s.snap_groups), id@, 0), !was_muted)),
        ),
        Event::SnapcastToggleGroupMute(id, was_muted) => (
            AppV {
                snap_groups: s.snap_groups.map_values(|g: SnapGroupV| group_with_mute(g, id@, !was_muted)),
                ..s
            },
            snap_send(s, ActionV::SnapSetGroupMute(id@, !was_muted)),
        ),
        Event::SnapcastSetGroupStream(id, stream) => (
            AppV {
                snap_groups: s.snap_groups.map_values(|g: SnapGroupV| group_with_stream(g, id@, stream@)),
                ..s
            },
            snap_send(s, ActionV::SnapSetGroupStream(id@, stream@)),
        ),
        _ => (s, seq![]),
    }
}

/// Is `e` one of the events of the Snapcast controls?
pub open spec fn snap_controls_event(e: Event) -> bool {
    e is SnapcastSetVolume
    || e is SnapcastToggleClientMute
    || e is SnapcastToggleGroupMute
    || e is SnapcastSetGroupStream
}

/// Is `e` one of the events of the Snapcast controls?
fn is_snap_controls_event(e: &Event) -> (r: bool)
    ensures
        r == snap_controls_event(*e),
{
    matches!(e, Event::SnapcastSetVolume(..) | Event::SnapcastToggleClientMute(..) | Event::SnapcastToggleGroupMute(..) | Event::SnapcastSetGroupStream(..))
}

/// [`step`] for the events of the Snapcast controls.
#[verifier::spinoff_prover]
#[verifier::rlimit(100)]
fn step_snap_controls(state: &mut AppState, event: Event) -> (actions: Vec<Action>)
    requires
        old(state).wf(),
        snap_controls_event(event),
    ensures
        final(state).wf(),
        final(state)@ == spec_snap_controls(old(state)@, event).0,
        actions_view(actions@) == spec_snap_controls(old(state)@, event).1,
{
    let ghost s0 = state@;
    let ghost e = event;
    match event {
        Event::SnapcastSetVolume(id, percent) => {
            let has = state.snapcast_client.is_some();
            let muted = set_client_volume(&mut state.snapcast.groups, id.as_str(), percent);
            let a = if has { one(Action::SnapSetVolume(id, percent, muted)) } else { none() };
            assert(state@ == spec_snap_controls(s0, e).0);
            a
        },
        Event::SnapcastToggleClientMute(id, was_muted) => {
            let has = state.snapcast_client.is_some();
            let r = toggle_client_mute(&mut state.snapcast.groups, id.as_str(), was_muted);
            let a = if has { one(Action::SnapSetVolume(id, r.1, r.0)) } else { none() };
            assert(state@ == spec_snap_controls(s0, e).0);
            a
        },
        Event::SnapcastToggleGroupMute(id, was_muted) => {
            let has = state.snapcast_client.is_some();
            let muted = toggle_group_mute(&mut state.snapcast.groups, id.as_str(), was_muted);
            let a = if has { one(Action::SnapSetGroupMute(id, muted)) } else { none() };
            assert(state@ == spec_snap_controls(s0, e).0);
            a
        },
        Event::SnapcastSetGroupStream(id, stream) => {
            let has = state.snapcast_client.is_some();
            set_group_stream(&mut state.snapcast.groups, id.as_str(), stream.as_str());
            let a = if has { one(Action::SnapSetGroupStream(id, stream)) } else { none() };
            assert(state@ == spec_snap_controls(s0, e).0);
            a
        },
        _ => none(),
    }
}

/// The navigation state after deleting the stored playlist `name`: when
/// its page is on screen, the playlists list takes its place.
pub open spec fn left_playlist(nav: NavState, name: Seq<char>) -> NavState {
    if nav.0 matches View::PlaylistDetail(n) && n@ == name { (View::Playlists, nav.1) } else { nav }
}

/// [`spec_step`] on the events of playlists, the queue and the history:
/// playing a stored playlist remembers it as what is playing, and any other
/// change to the queue forgets it; a counted play goes into the history,
/// which is stored.
pub open spec fn spec_playlists(s: AppV, e: Event) -> (AppV, Seq<ActionV>) {
    match e {
        Event::PlaylistPlay(name) => (
            AppV { playing_from_playlist: Some(name@), ..s },
            seq![ActionV::PlayPlaylist(name@, 0)],
        ),
        Event::PlaylistPlayAt(name, pos) => (
            AppV { playing_from_playlist: Some(name@), ..s },
            seq![ActionV::PlayPlaylist(name@, pos)],
        ),
        Event::PlaylistAppend(name) => (
            AppV { playing_from_playlist: None, ..s },
            seq![ActionV::AppendPlaylist(name@)],
        ),
        Event::PlaylistDelete(name) => (
            AppV { nav: left_playlist(s.nav, name@), ..s },
            seq![ActionV::DeletePlaylist(name@)],
        ),
        Event::QueueClear => (AppV { playing_from_playlist: None, ..s }, seq![ActionV::ClearQueue]),
        Event::QueueEdited => (AppV { playing_from_playlist: None, ..s }, seq![]),
        Event::PlayRecorded(entry) => (
            AppV { recently_played: recorded(s.recently_played, entry), ..s },
            seq![ActionV::StoreHistory(s.servers.active)],
        ),
        _ => (s, seq![]),
    }
}

/// Is `e` one of the events of playlists, the queue and the history?
pub open spec fn playlists_event(e: Event) -> bool {
    e is PlaylistPlay
    || e is PlaylistPlayAt
    || e is PlaylistAppend
    || e is PlaylistDelete
    || e is QueueClear
    || e is QueueEdited
    || e is PlayRecorded
}

/// Is `e` one of the events of playlists, the queue and the history?
fn is_playlists_event(e: &Event) -> (r: bool)
    ensures
        r == playlists_event(*e),
{
    matches!(e, Event::PlaylistPlay(..) | Event::PlaylistPlayAt(..) | Event::PlaylistAppend(..)
        | Event::PlaylistDelete(..) | Event::QueueClear | Event::QueueEdited | Event::PlayRecorded(..))
}

/// [`step`] for the events of playlists, the queue and the history.
#[verifier::spinoff_prover]
#[verifier::rlimit(100)]
fn step_playlists(state: &mut AppState, event: Event) -> (actions: Vec<Action>)
    requires
        old(state).wf(),
        playlists_event(event),
    ensures
        final(state).wf(),
        final(state)@ == spec_playlists(old(state)@, event).0,
        actions_view(actions@) == spec_playlists(old(state)@, event).1,
{
    let ghost s0 = state@;
    let ghost e = event;
    match event {
        Event::PlaylistPlay(name) => {
            state.playing_from_playlist = Some(name.clone());
            let a = one(Action::PlayPlaylist(name, 0));
            assert(state@ == spec_playlists(s0, e).0);
            a
        },
        Event::PlaylistPlayAt(name, pos) => {
            state.playing_from_playlist = Some(name.clone());
            let a = one(Action::PlayPlaylist(name, pos));
            assert(state@ == spec_playlists(s0, e).0);
            a
        },
        Event::PlaylistAppend(name) => {
            state.playing_from_playlist = None;
            let a = one(Action::AppendPlaylist(name));
            assert(state@ == spec_playlists(s0, e).0);
            a
        },
        Event::PlaylistDelete(name) => {
            state.nav.leave_deleted_playlist(name.as_str());
            let a = one(Action::DeletePlaylist(name));
            assert(state@ == spec_playlists(s0, e).0);
            a
        },
        Event::QueueClear => {
            state.playing_from_playlist = None;
            let a = one(Action::ClearQueue);
            assert(state@ == spec_playlists(s0, e).0);
            a
        },
        Event::QueueEdited => {
            state.playing_from_playlist = None;
            let a = none();
            assert(state@ == spec_playlists(s0, e).0);
            a
        },
        Event::PlayRecorded(entry) => {
            record_play(&mut state.recently_played, entry);
            let a = one(Action::StoreHistory(state.servers.active.clone()));
            assert(state@ == spec_playlists(s0, e).0);
            a
        },
        _ => none(),
    }
}

/// [`spec_step`] on typing into the settings and search forms.
pub open spec fn spec_typing(s: AppV, e: Event) -> (AppV, Seq<ActionV>) {
    let f = s.forms;
    match e {
        Event::ServerNameChanged(t) => (AppV { forms: FormsV { add_name: t@, ..f }, ..s }, seq![]),
        Event::HostChanged(t) => (AppV { forms: FormsV { add_host: t@, ..f }, ..s }, seq![]),
        Event::PortChanged(t) => (AppV { forms: FormsV { add_port: t@, ..f }, ..s }, seq![]),
        Event::PasswordChanged(t) => (AppV { forms: FormsV { add_password: t@, ..f }, ..s }, seq![]),
        Event::EditServerHost(t) => (AppV { forms: FormsV { edit_host: t@, ..f }, ..s }, seq![]),
        Event::EditServerPort(t) => (AppV { forms: FormsV { edit_port: t@, ..f }, ..s }, seq![]),
        Event::EditServerPassword(t) => (AppV { forms: FormsV { edit_password: t@, ..f }, ..s }, seq![]),
        Event::EditServerSnapHost(t) => (AppV { forms: FormsV { edit_snap_host: t@, ..f }, ..s }, seq![]),
        Event::EditServerSnapPort(t) => (AppV { forms: FormsV { edit_snap_port: t@, ..f }, ..s }, seq![]),
        Event::SearchQueryChanged(t) => (AppV { forms: FormsV { search_query: t@, ..f }, ..s }, seq![]),
        _ => (s, seq![]),
    }
}

/// Is `e` typing into a form?
pub open spec fn typing_event(e: Event) -> bool {
    e is ServerNameChanged
    || e is HostChanged
    || e is PortChanged
    || e is PasswordChanged
    || e is EditServerHost
    || e is EditServerPort
    || e is EditServerPassword
    || e is EditServerSnapHost
    || e is EditServerSnapPort
    || e is SearchQueryChanged
}

/// Is `e` typing into a form?
fn is_typing_event(e: &Event) -> (r: bool)
    ensures
        r == typing_event(*e),
{
    matches!(e, Event::ServerNameChanged(..) | Event::HostChanged(..) | Event::PortChanged(..)
        | Event::PasswordChanged(..) | Event::EditServerHost(..) | Event::EditServerPort(..)
        | Event::EditServerPassword(..) | Event::EditServerSnapHost(..) | Event::EditServerSnapPort(..)
        | Event::SearchQueryChanged(..))
}

/// [`step`] for typing into the settings and search forms.
#[verifier::spinoff_prover]
#[verifier::rlimit(100)]
fn step_typing(state: &mut AppState, event: Event) -> (actions: Vec<Action>)
    requires
        old(state).wf(),
        typing_event(event),
    ensures
        final(state).wf(),
        final(state)@ == spec_typing(old(state)@, event).0,
        actions_view(actions@) == spec_typing(old(state)@, event).1,
{
    let ghost s0 = state@;
    let ghost e = event;
    match event {
        Event::ServerNameChanged(t) => { state.forms.add_name = t; },
        Event::HostChanged(t) => { state.forms.add_host = t; },
        Event::PortChanged(t) => { state.forms.add_port = t; },
        Event::PasswordChanged(t) => { state.forms.add_password = t; },
        Event::EditServerHost(t) => { state.forms.edit_host = t; },
        Event::EditServerPort(t) => { state.forms.edit_port = t; },
        Event::EditServerPassword(t) => { state.forms.edit_password = t; },
        Event::EditServerSnapHost(t) => { state.forms.edit_snap_host = t; },
        Event::EditServerSnapPort(t) => { state.forms.edit_snap_port = t; },
        Event::SearchQueryChanged(t) => { state.forms.search_query = t; },
        _ => {},
    }
    assert(state@ == spec_typing(s0, e).0);
    none()
}

/// An optional text, or the empty text.
pub open spec fn or_empty(o: Option<Seq<char>>) -> Seq<char> {
    match o {
        Some(t) => t,
        None => Seq::empty(),
    }
}

/// [`spec_step`] on submitting the settings and search forms:
/// - "Add server" adds the server when the form is acceptable (see
///   `ServerList::add_server`), then saves and empties the form;
/// - opening a server for editing fills the edit form with its details;
/// - saving the edit form closes it, and when a host was given saves the
///   server (see `ServerList::edit_server`): when the server in use changed
///   address it is switched to anew (reconnecting, its history reloaded),
///   else the Snapcast client is dropped, since its address may have moved;
/// - submitting a search asks for it.
pub open spec fn spec_submits(s: AppV, e: Event) -> (AppV, Seq<ActionV>) {
    let f = s.forms;
    match e {
        Event::AddServer => if can_add(s.servers.servers, f.add_name, f.add_host) {
            (
                AppV {
                    servers: ServerListV {
                        servers: s.servers.servers.push(added_server(f.add_name, f.add_host, f.add_port, f.add_password)),
                        ..s.servers
                    },
                    forms: FormsV {
                        add_name: Seq::empty(),
                        add_host: Seq::empty(),
                        add_port: Seq::empty(),
                        add_password: Seq::empty(),
                        ..f
                    },
                    ..s
                },
                seq![ActionV::SaveConfig],
            )
        } else {
            (s, seq![])
        },
        Event::StartEditServer(name) => {
            let k = first_named(s.servers.servers, name@);
            if k >= 0 {
                let sv = s.servers.servers[k];
                (
                    AppV {
                        editing: Some(name@),
                        forms: FormsV {
                            edit_host: sv.host,
                            edit_port: decimal(sv.port as nat),
                            edit_password: or_empty(sv.password),
                            edit_snap_host: or_empty(sv.snapcast_host),
                            edit_snap_port: match sv.snapcast_port {
                                Some(p) => decimal(p as nat),
                                None => Seq::empty(),
                            },
                            ..f
                        },
                        ..s
                    },
                    seq![],
                )
            } else {
                (s, seq![])
            }
        },
        Event::ConfirmEditServer => match s.editing {
            None => (s, seq![]),
            Some(name) => {
                let s1 = AppV { editing: None, ..s };
                if trimmed(f.edit_host).len() == 0 {
                    (s1, seq![])
                } else {
                    let s2 = AppV {
                        servers: ServerListV {
                            servers: edited_servers(
                                s.servers.servers, name, f.edit_host, f.edit_port, f.edit_password,
                                f.edit_snap_host, f.edit_snap_port,
                            ),
                            ..s.servers
                        },
                        ..s1
                    };
                    if edit_reconnects(s.servers, name, f.edit_host, f.edit_port, f.edit_password) {
                        let r = switched(AppV { servers: ServerListV { active: Seq::empty(), ..s2.servers }, ..s2 }, name);
                        (r.0, seq![ActionV::SaveConfig] + r.1)
                    } else {
                        (AppV { snap_client: None, ..s2 }, seq![ActionV::SaveConfig])
                    }
                }
            },
        },
        Event::SearchSubmit => (s, seq![ActionV::Search(f.search_query)]),
        _ => (s, seq![]),
    }
}

/// Is `e` submitting a settings or search form?
pub open spec fn submits_event(e: Event) -> bool {
    e is AddServer || e is StartEditServer || e is ConfirmEditServer || e is SearchSubmit
}

/// Is `e` submitting a settings or search form?
fn is_submits_event(e: &Event) -> (r: bool)
    ensures
        r == submits_event(*e),
{
    matches!(e, Event::AddServer | Event::StartEditServer(..) | Event::ConfirmEditServer | Event::SearchSubmit)
}

/// An optional text, or the empty text.
fn or_empty_string(o: &Option<String>) -> (r: String)
    ensures
        r@ == or_empty(opt_chars(*o)),
{
    match o {
        Some(t) => t.clone(),
        None => String::new(),
    }
}

/// Submit the "add server" form.
#[verifier::spinoff_prover]
#[verifier::rlimit(100)]
fn submit_add_server(state: &mut AppState) -> (actions: Vec<Action>)
    requires
        old(state).wf(),
    ensures
        final(state).wf(),
        final(state)@ == spec_submits(old(state)@, Event::AddServer).0,
        actions_view(actions@) == spec_submits(old(state)@, Event::AddServer).1,
{
    let ghost s0 = state@;
    let ghost e = Event::AddServer;
    let added = state.servers.add_server(
        state.forms.add_name.as_str(),
        state.forms.add_host.as_str(),
        state.forms.add_port.as_str(),
        state.forms.add_password.as_str(),
    );
    if added {
        state.forms.add_name = String::new();
        state.forms.add_host = String::new();
        state.forms.add_port = String::new();
        state.forms.add_password = String::new();
        assert(state@.forms.add_name =~= Seq::<char>::empty());
        assert(state@.forms.add_host =~= Seq::<char>::empty());
        assert(state@.forms.add_port =~= Seq::<char>::empty());
        assert(state@.forms.add_password =~= Seq::<char>::empty());
        assert(state@ == spec_submits(s0, e).0);
        one(Action::SaveConfig)
    } else {
        assert(state@ == spec_submits(s0, e).0);
        none()
    }
}

/// Open the server `name` for editing.
#[verifier::spinoff_prover]
#[verifier::rlimit(100)]
fn start_edit_server(state: &mut AppState, name: String) -> (actions: Vec<Action>)
    requires
        old(state).wf(),
    ensures
        final(state).wf(),
        final(state)@ == spec_submits(old(state)@, Event::StartEditServer(name)).0,
        actions_view(actions@) == spec_submits(old(state)@, Event::StartEditServer(name)).1,
{
    let ghost s0 = state@;
    let ghost e = Event::StartEditServer(name);
    let found = match state.servers.server_named(name.as_str()) {
        Some(sv) => Some((
            sv.host.clone(),
            decimal_string(sv.port as u64),
            or_empty_string(&sv.password),
            or_empty_string(&sv.snapcast_host),
            match sv.snapcast_port {
                Some(p) => decimal_string(p as u64),
                None => String::new(),
            },
        )),
        None => None,
    };
    match found {
        Some((host, port, password, snap_host, snap_port)) => {
            state.forms.edit_host = host;
            state.forms.edit_port = port;
            state.forms.edit_password = password;
            state.forms.edit_snap_host = snap_host;
            state.forms.edit_snap_port = snap_port;
            state.settings.editing = Some(name);
            assert(state@.forms.edit_snap_port == spec_submits(s0, e).0.forms.edit_snap_port);
        },
        None => {},
    }
    assert(state@ == spec_submits(s0, e).0);
    none()
}

/// Save the "edit server" form.
#[verifier::spinoff_prover]
#[verifier::rlimit(100)]
fn confirm_edit_server(state: &mut AppState) -> (actions: Vec<Action>)
    requires
        old(state).wf(),
    ensures
        final(state).wf(),
        final(state)@ == spec_submits(old(state)@, Event::ConfirmEditServer).0,
        actions_view(actions@) == spec_submits(old(state)@, Event::ConfirmEditServer).1,
{
    let ghost s0 = state@;
    let ghost e = Event::ConfirmEditServer;
    let editing = state.settings.editing.take();
    match editing {
        None => {
            assert(state@ == spec_submits(s0, e).0);
            none()
        },
        Some(name) => {
            let h = trim(state.forms.edit_host.as_str());
            if h.unicode_len() == 0 {
                assert(state@ == spec_submits(s0, e).0);
                return none();
            }
            let reconnect = state.servers.edit_server(
                name.as_str(),
                state.forms.edit_host.as_str(),
                state.forms.edit_port.as_str(),
                state.forms.edit_password.as_str(),
                state.forms.edit_snap_host.as_str(),
                state.forms.edit_snap_port.as_str(),
            );
            if reconnect {
                state.servers.active = String::new();
                assert(state.servers.active@ =~= Seq::<char>::empty());
                let mut rest = switch_server(state, name);
                let mut a = one(Action::SaveConfig);
                a.append(&mut rest);
                proof {
                    let ss = spec_submits(s0, e);
                    assert(actions_view(a@) =~= ss.1);
                }
                a
            } else {
                state.snapcast_client = None;
                assert(state@ == spec_submits(s0, e).0);
                one(Action::SaveConfig)
            }
        },
    }
}

/// [`step`] for submitting the settings and search forms.
#[verifier::spinoff_prover]
#[verifier::rlimit(100)]
fn step_submits(state: &mut AppState, event: Event) -> (actions: Vec<Action>)
    requires
        old(state).wf(),
        submits_event(event),
    ensures
        final(state).wf(),
        final(state)@ == spec_submits(old(state)@, event).0,
        actions_view(actions@) == spec_submits(old(state)@, event).1,
{
    let ghost s0 = state@;
    let ghost e = event;
    match event {
        Event::AddServer => submit_add_server(state),
        Event::StartEditServer(name) => start_edit_server(state, name),
        Event::ConfirmEditServer => confirm_edit_server(state),
        Event::SearchSubmit => one(Action::Search(state.forms.search_query.clone())),
        _ => none(),
    }
}

/// [`spec_step`] on the art cache size field: a valid size (a whole
/// number of megabytes above zero) is saved and applied; either way the
/// field then shows the saved size.
pub open spec fn spec_cache_form(s: AppV, e: Event) -> (AppV, Seq<ActionV>) {
    match e {
        Event::ArtCacheSizeChanged(text) => (AppV { cache_size_input: text@, ..s }, seq![]),
        Event::SaveArtCacheSize => match cache_size_of(s.cache_size_input) {
            Some(mb) => (
                AppV { art_cache_mb: mb, cache_size_input: decimal(mb as nat), ..s },
                seq![ActionV::SaveConfig, ActionV::SetArtCacheLimit(mb)],
            ),
            None => (AppV { cache_size_input: decimal(s.art_cache_mb as nat), ..s }, seq![]),
        },
        _ => (s, seq![]),
    }
}

/// Is `e` one of the events of the art cache size field?
pub open spec fn cache_form_event(e: Event) -> bool {
    e is ArtCacheSizeChanged || e is SaveArtCacheSize
}

/// Is `e` one of the events of the art cache size field?
fn is_cache_form_event(e: &Event) -> (r: bool)
    ensures
        r == cache_form_event(*e),
{
    matches!(e, Event::ArtCacheSizeChanged(..) | Event::SaveArtCacheSize)
}

/// [`step`] for the events of the art cache size field.
#[verifier::spinoff_prover]
#[verifier::rlimit(100)]
fn step_cache_form(state: &mut AppState, event: Event) -> (actions: Vec<Action>)
    requires
        old(state).wf(),
        cache_form_event(event),
    ensures
        final(state).wf(),
        final(state)@ == spec_cache_form(old(state)@, event).0,
        actions_view(actions@) == spec_cache_form(old(state)@, event).1,
{
    let ghost s0 = state@;
    let ghost e = event;
    match event {
        Event::ArtCacheSizeChanged(text) => {
            state.settings.cache_size_input = text;
            assert(state@ == spec_cache_form(s0, e).0);
            none()
        },
        Event::SaveArtCacheSize => {
            let a = match art_cache_size_from(state.settings.cache_size_input.as_str()) {
                Some(mb) => {
                    state.art_cache_mb = mb;
                    two(Action::SaveConfig, Action::SetArtCacheLimit(mb))
                },
                None => none(),
            };
            state.settings.cache_size_input = decimal_string(state.art_cache_mb as u64);
            assert(state@ == spec_cache_form(s0, e).0);
            a
        },
        _ => none(),
    }
}

/// The next state and the actions for `e` in state `s`.
pub open spec fn spec_step(s: AppV, e: Event) -> (AppV, Seq<ActionV>) {
    if connection_event(e) {
        spec_connection(s, e)
    } else if navigation_event(e) {
        spec_navigation(s, e)
    } else if caches_event(e) {
        spec_caches(s, e)
    } else if servers_event(e) {
        spec_servers(s, e)
    } else if rename_event(e) {
        spec_rename(s, e)
    } else if toggles_event(e) {
        spec_toggles(s, e)
    } else if known_event(e) {
        spec_known(s, e)
    } else if toasts_event(e) {
        spec_toasts(s, e)
    } else if snapcast_event(e) {
        spec_snapcast(s, e)
    } else if snap_controls_event(e) {
        spec_snap_controls(s, e)
    } else if cache_form_event(e) {
        spec_cache_form(s, e)
    } else if playlists_event(e) {
        spec_playlists(s, e)
    } else if typing_event(e) {
        spec_typing(s, e)
    } else {
        spec_submits(s, e)
    }
}

/// The state at startup, from the saved configuration: the servers, the
/// default one, the partition saved before servers had their own, the
/// palette and the art cache limit. The shell applies the palette before
/// the first frame, loads the server's history and connects. Lyrics show
/// and follow the song, biographies are folded, the log shows MPD's entries
/// and the history is grouped by album.
pub open spec fn spec_initial(
    servers: Seq<ServerEntry>,
    default_server: Option<Seq<char>>,
    legacy_partition: Option<Seq<char>>,
    dark: bool,
    art_cache_mb: u32,
    album_grid_view: bool,
) -> (AppV, Seq<ActionV>) {
    let active = startup_server(servers_view(servers), default_server);
    (
        AppV {
            nav: (View::NowPlaying, Seq::empty()),
            toasts: Seq::empty(),
            art: no_art(),
            servers: ServerListV { servers: servers_view(servers), default_server, active },
            confirm_clear_caches: false,
            editing: None,
            renaming: None,
            cache_size_input: decimal(art_cache_mb as nat),
            snap_groups: Seq::empty(),
            snap_streams: Seq::empty(),
            snap_error: None,
            snap_show_inactive: false,
            snap_client: None,
            connected: false,
            last_error: None,
            recently_played: Seq::empty(),
            lyrics: Set::empty(),
            artist_bios: Set::empty(),
            album_bios: Set::empty(),
            cache_size_bytes: None,
            art_cache_mb,
            dark_mode: dark,
            legacy_partition,
            rename_input: Seq::empty(),
            show_lyrics: true,
            lyrics_follow: true,
            show_artist_bio: false,
            show_album_bio: false,
            log_show_mpd_only: true,
            recently_played_show_albums: true,
            album_grid_view,
            playing_from_playlist: None,
            forms: empty_forms_v(),
        },
        seq![ActionV::ApplyTheme(dark), ActionV::LoadHistory(active), ActionV::Connect],
    )
}

/// A copy of an optional string.
fn copy_opt(o: &Option<String>) -> (r: Option<String>)
    ensures
        opt_chars(r) == opt_chars(*o),
{
    match o {
        Some(s) => Some(s.clone()),
        None => None,
    }
}

/// Show `text` as a toast (an error or a note); it also becomes the status
/// line.
fn show_toast(state: &mut AppState, text: String, is_error: bool)
    requires
        old(state).wf(),
    ensures
        final(state).wf(),
        final(state)@ == toasted(old(state)@, text@, is_error),
{
    state.last_error = Some(text.clone());
    state.toasts.push(Toast::new(text, is_error));
}

/// Switch to the server `name`; see [`switched`].
fn switch_server(state: &mut AppState, name: String) -> (actions: Vec<Action>)
    requires
        old(state).wf(),
    ensures
        final(state).wf(),
        (final(state)@, actions_view(actions@)) == switched(old(state)@, name@),
{
    let ghost s0 = state@;
    let part = state.servers.partition_of(name.as_str());
    let changed = state.servers.switch_to(name.as_str());
    if !changed {
        let a: Vec<Action> = Vec::new();
        assert(actions_view(a@) =~= seq![]);
        assert(state@ == s0);
        return a;
    }
    match part {
        Some(p) => {
            state.legacy_partition = p;
        },
        None => {},
    }
    state.connected = false;
    state.recently_played = Vec::new();
    state.art.abandon_queued();
    state.snapcast.reset();
    state.snapcast_client = None;
    let mut a: Vec<Action> = Vec::new();
    a.push(Action::LoadHistory(name));
    a.push(Action::Connect);
    proof {
        assert(state.snapcast.groups@ =~= Seq::<SnapGroup>::empty());
        assert(groups_view(state.snapcast.groups@) =~= Seq::<SnapGroupV>::empty());
        assert(state.snapcast.streams@ =~= Seq::<String>::empty());
        assert(state.recently_played@ =~= Seq::<RecentlyPlayedEntry>::empty());
        assert(actions_view(a@) =~= seq![ActionV::LoadHistory(name@), ActionV::Connect]);
        assert(state@ == switched(s0, name@).0);
    }
    a
}

/// The single action `x`.
fn one(x: Action) -> (a: Vec<Action>)
    ensures
        actions_view(a@) == seq![x@],
{
    let mut a: Vec<Action> = Vec::new();
    a.push(x);
    assert(actions_view(a@) =~= seq![x@]);
    a
}

/// The actions `x` then `y`.
fn two(x: Action, y: Action) -> (a: Vec<Action>)
    ensures
        actions_view(a@) == seq![x@, y@],
{
    let mut a: Vec<Action> = Vec::new();
    a.push(x);
    a.push(y);
    assert(actions_view(a@) =~= seq![x@, y@]);
    a
}

/// Entering `view` (already on screen): what it loads, and the Settings
/// form reset. See [`entered`].
pub fn enter_view(state: &mut AppState, view: &View) -> (actions: Vec<Action>)
    requires
        old(state).wf(),
    ensures
        final(state).wf(),
        (final(state)@, actions_view(actions@)) == entered(old(state)@, *view),
{
    let ghost s0 = state@;
    let a = match view {
        View::NowPlaying => one(Action::ResetLyricsScroll),
        View::Artists => one(Action::LoadArtists),
        View::Library => one(Action::LoadArtists),
        View::Albums => one(Action::LoadAlbums),
        View::Genres => one(Action::LoadGenres),
        View::Browser => one(Action::LoadBrowser),
        View::Outputs => one(Action::LoadOutputs),
        View::Partitions => one(Action::LoadPartitions),
        View::Playlists => one(Action::LoadPlaylists),
        View::ServerStats => one(Action::FetchStats),
        View::Settings => {
            state.settings.on_enter(state.art_cache_mb);
            one(Action::LoadCacheSize)
        },
        View::RecentlyPlayed => one(Action::QueueListArt),
        View::RecentlyAdded => one(Action::LoadRecentlyAdded),
        View::Snapcast => if state.servers.contains(state.servers.active.as_str()) {
            one(Action::LoadSnapcast(copy_opt(&state.snapcast_client)))
        } else {
            none()
        },
        _ => {
            let a: Vec<Action> = Vec::new();
            assert(actions_view(a@) =~= seq![]);
            a
        },
    };
    assert(state@ == entered(s0, *view).0);
    a
}

/// The state at startup and the shell's first work; see [`spec_initial`].
pub fn initial_state(
    servers: Vec<ServerEntry>,
    default_server: Option<String>,
    legacy_partition: Option<String>,
    dark: bool,
    art_cache_mb: u32,
    album_grid_view: bool,
) -> (r: (AppState, Vec<Action>))
    ensures
        r.0.wf(),
        (r.0@, actions_view(r.1@)) == spec_initial(
            servers@,
            opt_chars(default_server),
            opt_chars(legacy_partition),
            dark,
            art_cache_mb,
            album_grid_view,
        ),
{
    let ghost sv = servers@;
    let ghost dv = opt_chars(default_server);
    let list = ServerList::new(servers, default_server);
    let active = list.active.clone();
    let state = AppState {
        nav: Navigator::new(),
        toasts: Toasts::new(),
        art: ArtQueue::new(),
        servers: list,
        settings: SettingsForm {
            confirm_clear_caches: false,
            editing: None,
            renaming: None,
            cache_size_input: decimal_string(art_cache_mb as u64),
        },
        snapcast: SnapcastPanel::new(),
        snapcast_client: None,
        connected: false,
        last_error: None,
        recently_played: Vec::new(),
        lyrics: KeySet::new(),
        artist_bios: KeySet::new(),
        album_bios: KeySet::new(),
        cache_size_bytes: None,
        art_cache_mb,
        dark_mode: dark,
        legacy_partition,
        rename_input: String::new(),
        show_lyrics: true,
        lyrics_follow: true,
        show_artist_bio: false,
        show_album_bio: false,
        log_show_mpd_only: true,
        recently_played_show_albums: true,
        album_grid_view,
        playing_from_playlist: None,
        forms: empty_forms(),
    };
    let mut a: Vec<Action> = Vec::new();
    a.push(Action::ApplyTheme(dark));
    a.push(Action::LoadHistory(active));
    a.push(Action::Connect);
    proof {
        let e = spec_initial(sv, dv, state@.legacy_partition, dark, art_cache_mb, album_grid_view);
        assert(state.rename_input@ =~= Seq::<char>::empty());
        assert(state.snapcast.groups@ =~= Seq::<SnapGroup>::empty());
        assert(groups_view(state.snapcast.groups@) =~= Seq::<SnapGroupV>::empty());
        assert(state.snapcast.streams@ =~= Seq::<String>::empty());
        assert(state.recently_played@ =~= Seq::<RecentlyPlayedEntry>::empty());
        assert(state@.art =~= no_art());
        assert(state@ == e.0);
        assert(actions_view(a@) =~= e.1);
    }
    (state, a)
}


/// A copy of `v`.
fn copy_view(v: &View) -> (r: View)
    ensures
        r == *v,
{
    match v {
        View::NowPlaying => View::NowPlaying,
        View::Queue => View::Queue,
        View::Library => View::Library,
        View::Artists => View::Artists,
        View::Albums => View::Albums,
        View::Genres => View::Genres,
        View::ArtistDetail(a) => View::ArtistDetail(a.clone()),
        View::AlbumDetail(a, b) => View::AlbumDetail(a.clone(), match b {
            Some(x) => Some(x.clone()),
            None => None,
        }),
        View::GenreDetail(g) => View::GenreDetail(g.clone()),
        View::Browser => View::Browser,
        View::Search => View::Search,
        View::Radio => View::Radio,
        View::CD => View::CD,
        View::Outputs => View::Outputs,
        View::Partitions => View::Partitions,
        View::Snapcast => View::Snapcast,
        View::Settings => View::Settings,
        View::Log => View::Log,
        View::ServerStats => View::ServerStats,
        View::RecentlyAdded => View::RecentlyAdded,
        View::RecentlyPlayed => View::RecentlyPlayed,
        View::Playlists => View::Playlists,
        View::PlaylistDetail(p) => View::PlaylistDetail(p.clone()),
        View::AddToPlaylist => View::AddToPlaylist,
    }
}

/// Remove the server `name`; see [`removed`].
#[verifier::spinoff_prover]
#[verifier::rlimit(100)]
fn remove_server(state: &mut AppState, name: String) -> (actions: Vec<Action>)
    requires
        old(state).wf(),
    ensures
        final(state).wf(),
        (final(state)@, actions_view(actions@)) == removed(old(state)@, name@),
{
    let ghost s0 = state@;
    if state.servers.servers.len() <= 1 {
        let a = none();
        assert(actions_view(a@) =~= seq![]);
        return a;
    }
    let switch_to = state.servers.remove_server(name.as_str());
    let ghost s1 = state@;
    let mut a = two(Action::SaveConfig, Action::DeleteHistory(name));
    match switch_to {
        Some(first) => {
            let mut rest = switch_server(state, first);
            a.append(&mut rest);
        },
        None => {},
    }
    proof {
        let rest = without_named(s0.servers.servers, name@);
        assert(s1.servers.servers == rest);
    }
    assert(actions_view(a@) =~= removed(s0, name@).1);
    a
}

/// Confirm the rename being typed; see [`rename_confirmed`].
fn confirm_rename(state: &mut AppState) -> (actions: Vec<Action>)
    requires
        old(state).wf(),
    ensures
        final(state).wf(),
        (final(state)@, actions_view(actions@)) == rename_confirmed(old(state)@),
{
    let ghost s0 = state@;
    let renaming = state.settings.renaming.take();
    let a = match renaming {
        Some(old_name) => {
            let ok = state.servers.rename_server(old_name.as_str(), state.rename_input.as_str());
            if ok { one(Action::SaveConfig) } else { none() }
        },
        None => none(),
    };
    state.rename_input = String::new();
    assert(state@.rename_input =~= Seq::<char>::empty());
    assert(state@ == rename_confirmed(s0).0);
    assert(actions_view(a@) =~= rename_confirmed(s0).1);
    a
}

/// No actions.
fn none() -> (a: Vec<Action>)
    ensures
        actions_view(a@) == Seq::<ActionV>::empty(),
{
    let a: Vec<Action> = Vec::new();
    assert(actions_view(a@) =~= Seq::<ActionV>::empty());
    a
}

/// Is `e` one of the events of connecting?
pub open spec fn connection_event(e: Event) -> bool {
    e is Connect
    || e is Connected
    || e is ConnectFailed
    || e is RefreshAll
    || e is ConnectionTick
    || e is Disconnected
}

/// Is `e` one of the events of navigation, the tick and the history?
pub open spec fn navigation_event(e: Event) -> bool {
    e is Tick
    || e is NavigateTo
    || e is GoBack
    || e is RecentlyPlayedLoaded
    || e is ClearRecentlyPlayed
}

/// Is `e` one of the events of clearing caches?
pub open spec fn caches_event(e: Event) -> bool {
    e is ClearCaches
    || e is CancelClearCaches
    || e is CachesCleared
    || e is CacheSizeLoaded
}

/// Is `e` one of the events of choosing servers?
pub open spec fn servers_event(e: Event) -> bool {
    e is SwitchServer
    || e is SetDefaultServer
    || e is RemoveServer
}

/// Is `e` one of the events of the rename and edit forms?
pub open spec fn rename_event(e: Event) -> bool {
    e is StartRename
    || e is RenameInputChanged
    || e is ConfirmRename
    || e is CancelRename
    || e is CancelEditServer
}

/// Is `e` one of the events of display toggles?
pub open spec fn toggles_event(e: Event) -> bool {
    e is ToggleLyrics
    || e is ToggleLyricsFollow
    || e is ToggleArtistBio
    || e is ToggleAlbumBio
    || e is LogToggleMpdOnly
    || e is ToggleRecentlyPlayedMode
    || e is ToggleAlbumGridView
}

/// Is `e` one of the events of lyrics, biographies and art?
pub open spec fn known_event(e: Event) -> bool {
    e is LyricsLoaded
    || e is ArtistBioLoaded
    || e is AlbumBioLoaded
    || e is ArtLoaded
    || e is AlbumArtFetched
}

/// Is `e` one of the events of toasts and the palette?
pub open spec fn toasts_event(e: Event) -> bool {
    e is DatabaseUpdating
    || e is ErrorOccurred
    || e is DismissToast
    || e is SetDarkMode
}

/// Is `e` one of the events of Snapcast?
pub open spec fn snapcast_event(e: Event) -> bool {
    e is SnapcastStatusLoaded
    || e is SnapcastUnreachable
    || e is SnapcastToggleShowInactive
    || e is SnapcastClientBuilt
}

/// Is `e` one of the events of connecting?
fn is_connection_event(e: &Event) -> (r: bool)
    ensures
        r == connection_event(*e),
{
    matches!(e, Event::Connect | Event::Connected | Event::ConnectFailed(..) | Event::RefreshAll | Event::ConnectionTick | Event::Disconnected)
}

/// Is `e` one of the events of navigation, the tick and the history?
fn is_navigation_event(e: &Event) -> (r: bool)
    ensures
        r == navigation_event(*e),
{
    matches!(e, Event::Tick(..) | Event::NavigateTo(..) | Event::GoBack | Event::RecentlyPlayedLoaded(..) | Event::ClearRecentlyPlayed)
}

/// Is `e` one of the events of clearing caches?
fn is_caches_event(e: &Event) -> (r: bool)
    ensures
        r == caches_event(*e),
{
    matches!(e, Event::ClearCaches | Event::CancelClearCaches | Event::CachesCleared | Event::CacheSizeLoaded(..))
}

/// Is `e` one of the events of choosing servers?
fn is_servers_event(e: &Event) -> (r: bool)
    ensures
        r == servers_event(*e),
{
    matches!(e, Event::SwitchServer(..) | Event::SetDefaultServer(..) | Event::RemoveServer(..))
}

/// Is `e` one of the events of the rename and edit forms?
fn is_rename_event(e: &Event) -> (r: bool)
    ensures
        r == rename_event(*e),
{
    matches!(e, Event::StartRename(..) | Event::RenameInputChanged(..) | Event::ConfirmRename | Event::CancelRename | Event::CancelEditServer)
}

/// Is `e` one of the events of display toggles?
fn is_toggles_event(e: &Event) -> (r: bool)
    ensures
        r == toggles_event(*e),
{
    matches!(e, Event::ToggleLyrics | Event::ToggleLyricsFollow | Event::ToggleArtistBio | Event::ToggleAlbumBio | Event::LogToggleMpdOnly | Event::ToggleRecentlyPlayedMode | Event::ToggleAlbumGridView)
}

/// Is `e` one of the events of lyrics, biographies and art?
fn is_known_event(e: &Event) -> (r: bool)
    ensures
        r == known_event(*e),
{
    matches!(e, Event::LyricsLoaded(..) | Event::ArtistBioLoaded(..) | Event::AlbumBioLoaded(..) | Event::ArtLoaded(..) | Event::AlbumArtFetched(..))
}

/// Is `e` one of the events of toasts and the palette?
fn is_toasts_event(e: &Event) -> (r: bool)
    ensures
        r == toasts_event(*e),
{
    matches!(e, Event::DatabaseUpdating | Event::ErrorOccurred(..) | Event::DismissToast | Event::SetDarkMode(..))
}

/// Is `e` one of the events of Snapcast?
fn is_snapcast_event(e: &Event) -> (r: bool)
    ensures
        r == snapcast_event(*e),
{
    matches!(e, Event::SnapcastStatusLoaded(..) | Event::SnapcastUnreachable(..) | Event::SnapcastToggleShowInactive | Event::SnapcastClientBuilt(..))
}

/// [`step`] for the events of connecting.
#[verifier::spinoff_prover]
#[verifier::rlimit(100)]
fn step_connection(state: &mut AppState, event: Event) -> (actions: Vec<Action>)
    requires
        old(state).wf(),
        connection_event(event),
    ensures
        final(state).wf(),
        final(state)@ == spec_connection(old(state)@, event).0,
        actions_view(actions@) == spec_connection(old(state)@, event).1,
{
    let ghost s0 = state@;
    let ghost e = event;
    match event {
        Event::Connect => {
            let a = one(Action::Connect);
            assert(state@ == spec_connection(s0, e).0);
            a
        },
        Event::Connected => {
            let a = {
                state.last_error = None;
                let legacy: Option<&str> = match &state.legacy_partition {
                    Some(l) => Some(l.as_str()),
                    None => None,
                };
                let p = state.servers.partition_to_restore(legacy);
                proof {
                    assert(opt_chars(p) == restored_partition(s0.servers, s0.legacy_partition));
                }
                let a = one(Action::RestorePartition(p));
                assert(state@ == spec_connection(s0, e).0);
                a
            };
            assert(state@ == spec_connection(s0, e).0);
            a
        },
        Event::ConnectFailed(msg) => {
            let a = {
                state.connected = false;
                show_toast(state, msg, true);
                none()
            };
            assert(state@ == spec_connection(s0, e).0);
            a
        },
        Event::RefreshAll => {
            let a = {
                state.connected = true;
                two(Action::FetchAll, Action::FetchRecentArt)
            };
            assert(state@ == spec_connection(s0, e).0);
            a
        },
        Event::ConnectionTick => {
            let a = if state.connected { none() } else { one(Action::Reconnect) };
            assert(state@ == spec_connection(s0, e).0);
            a
        },
        Event::Disconnected => {
            let a = {
                state.connected = false;
                none()
            };
            assert(state@ == spec_connection(s0, e).0);
            a
        },
        _ => none(),
    }
}

/// [`step`] for the events of navigation, the tick and the history.
#[verifier::spinoff_prover]
#[verifier::rlimit(100)]
fn step_navigation(state: &mut AppState, event: Event) -> (actions: Vec<Action>)
    requires
        old(state).wf(),
        navigation_event(event),
        event matches Event::Tick(ages) ==> ages@.len() == old(state)@.toasts.len(),
    ensures
        final(state).wf(),
        final(state)@ == spec_navigation(old(state)@, event).0,
        actions_view(actions@) == spec_navigation(old(state)@, event).1,
{
    let ghost s0 = state@;
    let ghost e = event;
    match event {
        Event::Tick(ages) => {
            let a = {
                state.toasts.prune_by_age(&ages);
                let mut a: Vec<Action> = Vec::new();
                a.push(Action::RefreshLog);
                if state.connected {
                    a.push(Action::RefreshStatus);
                    a.push(Action::LyricsAutoscroll);
                    if matches!(state.nav.current(), View::ServerStats) {
                        a.push(Action::FetchStats);
                    }
                }
                assert(actions_view(a@) =~= tick_actions(s0));
                a
            };
            assert(state@ == spec_navigation(s0, e).0);
            a
        },
        Event::NavigateTo(v) => {
            let a = {
                let shown = copy_view(&v);
                state.nav.navigate_to(v);
                let ghost s1 = state@;
                assert(s1 == AppV { nav: opened(s0.nav, shown), ..s0 });
                enter_view(state, &shown)
            };
            assert(state@ == spec_navigation(s0, e).0);
            a
        },
        Event::GoBack => {
            let a = {
                state.nav.go_back();
                assert(state@ == spec_navigation(s0, e).0);
                none()
            };
            assert(state@ == spec_navigation(s0, e).0);
            a
        },
        Event::RecentlyPlayedLoaded(entries) => {
            let a = {
                state.recently_played = entries;
                none()
            };
            assert(state@ == spec_navigation(s0, e).0);
            a
        },
        Event::ClearRecentlyPlayed => {
            let a = {
                state.recently_played = Vec::new();
                assert(state@.recently_played =~= Seq::<RecentlyPlayedEntry>::empty());
                one(Action::ClearHistory(state.servers.active.clone()))
            };
            assert(state@ == spec_navigation(s0, e).0);
            a
        },
        _ => none(),
    }
}

/// [`step`] for the events of clearing caches.
#[verifier::spinoff_prover]
#[verifier::rlimit(100)]
fn step_caches(state: &mut AppState, event: Event) -> (actions: Vec<Action>)
    requires
        old(state).wf(),
        caches_event(event),
    ensures
        final(state).wf(),
        final(state)@ == spec_caches(old(state)@, event).0,
        actions_view(actions@) == spec_caches(old(state)@, event).1,
{
    let ghost s0 = state@;
    let ghost e = event;
    match event {
        Event::ClearCaches => {
            let a = {
                if !state.settings.confirm_clear_caches {
                    state.settings.confirm_clear_caches = true;
                    none()
                } else {
                    state.settings.confirm_clear_caches = false;
                    state.art.clear_all();
                    state.lyrics.clear();
                    state.artist_bios.clear();
                    state.album_bios.clear();
                    assert(state@.art =~= no_art());
                    assert(state@ == spec_caches(s0, e).0);
                    one(Action::PurgeStores)
                }
            };
            assert(state@ == spec_caches(s0, e).0);
            a
        },
        Event::CancelClearCaches => {
            let a = {
                state.settings.confirm_clear_caches = false;
                none()
            };
            assert(state@ == spec_caches(s0, e).0);
            a
        },
        Event::CachesCleared => {
            let a = {
                state.cache_size_bytes = Some(0);
                two(Action::QueueListArt, Action::LoadCacheSize)
            };
            assert(state@ == spec_caches(s0, e).0);
            a
        },
        Event::CacheSizeLoaded(bytes) => {
            let a = {
                state.cache_size_bytes = Some(bytes);
                none()
            };
            assert(state@ == spec_caches(s0, e).0);
            a
        },
        _ => none(),
    }
}

/// [`step`] for the events of choosing servers.
#[verifier::spinoff_prover]
#[verifier::rlimit(100)]
fn step_servers(state: &mut AppState, event: Event) -> (actions: Vec<Action>)
    requires
        old(state).wf(),
        servers_event(event),
    ensures
        final(state).wf(),
        final(state)@ == spec_servers(old(state)@, event).0,
        actions_view(actions@) == spec_servers(old(state)@, event).1,
{
    let ghost s0 = state@;
    let ghost e = event;
    match event {
        Event::SwitchServer(name) => {
            let a = switch_server(state, name);
            assert(state@ == spec_servers(s0, e).0);
            a
        },
        Event::SetDefaultServer(name) => {
            let a = {
                state.servers.set_default(name.as_str());
                let ghost s1 = state@;
                assert(s1 == AppV { servers: ServerListV { default_server: Some(name@), ..s0.servers }, ..s0 });
                let rest = switch_server(state, name);
                let mut a = one(Action::SaveConfig);
                let mut rest = rest;
                a.append(&mut rest);
                assert(actions_view(a@) =~= seq![ActionV::SaveConfig] + switched(s1, name@).1);
                a
            };
            assert(state@ == spec_servers(s0, e).0);
            a
        },
        Event::RemoveServer(name) => {
            let a = remove_server(state, name);
            assert(state@ == spec_servers(s0, e).0);
            a
        },
        _ => none(),
    }
}

/// [`step`] for the events of the rename and edit forms.
#[verifier::spinoff_prover]
#[verifier::rlimit(100)]
fn step_rename(state: &mut AppState, event: Event) -> (actions: Vec<Action>)
    requires
        old(state).wf(),
        rename_event(event),
    ensures
        final(state).wf(),
        final(state)@ == spec_rename(old(state)@, event).0,
        actions_view(actions@) == spec_rename(old(state)@, event).1,
{
    let ghost s0 = state@;
    let ghost e = event;
    match event {
        Event::StartRename(name) => {
            let a = {
                state.rename_input = name.clone();
                state.settings.renaming = Some(name);
                none()
            };
            assert(state@ == spec_rename(s0, e).0);
            a
        },
        Event::RenameInputChanged(text) => {
            let a = {
                state.rename_input = text;
                none()
            };
            assert(state@ == spec_rename(s0, e).0);
            a
        },
        Event::ConfirmRename => {
            let a = confirm_rename(state);
            assert(state@ == spec_rename(s0, e).0);
            a
        },
        Event::CancelRename => {
            let a = {
                state.settings.renaming = None;
                state.rename_input = String::new();
                assert(state@ == spec_rename(s0, e).0);
                none()
            };
            assert(state@ == spec_rename(s0, e).0);
            a
        },
        Event::CancelEditServer => {
            let a = {
                state.settings.editing = None;
                none()
            };
            assert(state@ == spec_rename(s0, e).0);
            a
        },
        _ => none(),
    }
}

/// [`step`] for the events of display toggles.
#[verifier::spinoff_prover]
#[verifier::rlimit(100)]
fn step_toggles(state: &mut AppState, event: Event) -> (actions: Vec<Action>)
    requires
        old(state).wf(),
        toggles_event(event),
    ensures
        final(state).wf(),
        final(state)@ == spec_toggles(old(state)@, event).0,
        actions_view(actions@) == spec_toggles(old(state)@, event).1,
{
    let ghost s0 = state@;
    let ghost e = event;
    match event {
        Event::ToggleLyrics => {
            let a = {
                state.show_lyrics = !state.show_lyrics;
                none()
            };
            assert(state@ == spec_toggles(s0, e).0);
            a
        },
        Event::ToggleLyricsFollow => {
            let a = {
                state.lyrics_follow = !state.lyrics_follow;
                if state.lyrics_follow { one(Action::LyricsAutoscroll) } else { none() }
            };
            assert(state@ == spec_toggles(s0, e).0);
            a
        },
        Event::ToggleArtistBio => {
            let a = {
                state.show_artist_bio = !state.show_artist_bio;
                none()
            };
            assert(state@ == spec_toggles(s0, e).0);
            a
        },
        Event::ToggleAlbumBio => {
            let a = {
                state.show_album_bio = !state.show_album_bio;
                none()
            };
            assert(state@ == spec_toggles(s0, e).0);
            a
        },
        Event::LogToggleMpdOnly => {
            let a = {
                state.log_show_mpd_only = !state.log_show_mpd_only;
                none()
            };
            assert(state@ == spec_toggles(s0, e).0);
            a
        },
        Event::ToggleRecentlyPlayedMode => {
            let a = {
                state.recently_played_show_albums = !state.recently_played_show_albums;
                none()
            };
            assert(state@ == spec_toggles(s0, e).0);
            a
        },
        Event::ToggleAlbumGridView => {
            let a = {
                state.album_grid_view = !state.album_grid_view;
                two(Action::SaveConfig, Action::QueueListArt)
            };
            assert(state@ == spec_toggles(s0, e).0);
            a
        },
        _ => none(),
    }
}

/// [`step`] for the events of lyrics, biographies and art.
#[verifier::spinoff_prover]
#[verifier::rlimit(100)]
fn step_known(state: &mut AppState, event: Event) -> (actions: Vec<Action>)
    requires
        old(state).wf(),
        known_event(event),
    ensures
        final(state).wf(),
        final(state)@ == spec_known(old(state)@, event).0,
        actions_view(actions@) == spec_known(old(state)@, event).1,
{
    let ghost s0 = state@;
    let ghost e = event;
    match event {
        Event::LyricsLoaded(key) => {
            let a = {
                state.lyrics.insert(key);
                none()
            };
            assert(state@ == spec_known(s0, e).0);
            a
        },
        Event::ArtistBioLoaded(name) => {
            let a = {
                state.artist_bios.insert(name);
                none()
            };
            assert(state@ == spec_known(s0, e).0);
            a
        },
        Event::AlbumBioLoaded(name) => {
            let a = {
                state.album_bios.insert(name);
                none()
            };
            assert(state@ == spec_known(s0, e).0);
            a
        },
        Event::ArtLoaded(key) => {
            let a = {
                state.art.mark_loaded(key);
                none()
            };
            assert(state@ == spec_known(s0, e).0);
            a
        },
        Event::AlbumArtFetched(key, outcome) => {
            let a = {
                let fetches = state.art.fetched(key, &outcome);
                one(Action::StartArt(fetches))
            };
            assert(state@ == spec_known(s0, e).0);
            a
        },
        _ => none(),
    }
}

/// [`step`] for the events of toasts and the palette.
#[verifier::spinoff_prover]
#[verifier::rlimit(100)]
fn step_toasts(state: &mut AppState, event: Event) -> (actions: Vec<Action>)
    requires
        old(state).wf(),
        toasts_event(event),
    ensures
        final(state).wf(),
        final(state)@ == spec_toasts(old(state)@, event).0,
        actions_view(actions@) == spec_toasts(old(state)@, event).1,
{
    let ghost s0 = state@;
    let ghost e = event;
    match event {
        Event::DatabaseUpdating => {
            let a = {
                show_toast(state, String::from_str("Database update started"), false);
                one(Action::FetchStats)
            };
            assert(state@ == spec_toasts(s0, e).0);
            a
        },
        Event::ErrorOccurred(msg) => {
            let a = {
                show_toast(state, msg, true);
                none()
            };
            assert(state@ == spec_toasts(s0, e).0);
            a
        },
        Event::DismissToast => {
            let a = {
                state.toasts.dismiss_oldest();
                none()
            };
            assert(state@ == spec_toasts(s0, e).0);
            a
        },
        Event::SetDarkMode(dark) => {
            let a = {
                state.dark_mode = dark;
                two(Action::ApplyTheme(dark), Action::SaveConfig)
            };
            assert(state@ == spec_toasts(s0, e).0);
            a
        },
        _ => none(),
    }
}

/// [`step`] for the events of Snapcast.
#[verifier::spinoff_prover]
#[verifier::rlimit(100)]
fn step_snapcast(state: &mut AppState, event: Event) -> (actions: Vec<Action>)
    requires
        old(state).wf(),
        snapcast_event(event),
    ensures
        final(state).wf(),
        final(state)@ == spec_snapcast(old(state)@, event).0,
        actions_view(actions@) == spec_snapcast(old(state)@, event).1,
{
    let ghost s0 = state@;
    let ghost e = event;
    match event {
        Event::SnapcastStatusLoaded(groups, streams) => {
            let a = {
                state.snapcast.status_loaded(groups, streams);
                none()
            };
            assert(state@ == spec_snapcast(s0, e).0);
            a
        },
        Event::SnapcastUnreachable(msg) => {
            let a = {
                state.snapcast.unreachable(msg);
                none()
            };
            assert(state@ == spec_snapcast(s0, e).0);
            a
        },
        Event::SnapcastToggleShowInactive => {
            let a = {
                state.snapcast.toggle_show_inactive();
                none()
            };
            assert(state@ == spec_snapcast(s0, e).0);
            a
        },
        Event::SnapcastClientBuilt(addr) => {
            let a = {
                state.snapcast_client = Some(addr);
                none()
            };
            assert(state@ == spec_snapcast(s0, e).0);
            a
        },
        _ => none(),
    }
}

/// Apply `event` to `state`: the next state, and what the shell has to do,
/// in order. See [`spec_step`].
pub fn step(state: &mut AppState, event: Event) -> (actions: Vec<Action>)
    requires
        old(state).wf(),
        event matches Event::Tick(ages) ==> ages@.len() == old(state)@.toasts.len(),
    ensures
        final(state).wf(),
        (final(state)@, actions_view(actions@)) == spec_step(old(state)@, event),
{
    if is_connection_event(&event) {
        step_connection(state, event)
    } else if is_navigation_event(&event) {
        step_navigation(state, event)
    } else if is_caches_event(&event) {
        step_caches(state, event)
    } else if is_servers_event(&event) {
        step_servers(state, event)
    } else if is_rename_event(&event) {
        step_rename(state, event)
    } else if is_toggles_event(&event) {
        step_toggles(state, event)
    } else if is_known_event(&event) {
        step_known(state, event)
    } else if is_toasts_event(&event) {
        step_toasts(state, event)
    } else if is_snapcast_event(&event) {
        step_snapcast(state, event)
    } else if is_snap_controls_event(&event) {
        step_snap_controls(state, event)
    } else if is_cache_form_event(&event) {
        step_cache_form(state, event)
    } else if is_playlists_event(&event) {
        step_playlists(state, event)
    } else if is_typing_event(&event) {
        step_typing(state, event)
    } else {
        step_submits(state, event)
    }
}


/// The periodic tick, with the toasts' ages read from the clock: the
/// expired toasts go, and the periodic work is asked for; see [`ticked`].
pub fn tick(state: &mut AppState) -> (actions: Vec<Action>)
    requires
        old(state).wf(),
    ensures
        final(state).wf(),
        exists|ages: Seq<u64>| ages.len() == old(state)@.toasts.len()
            && (final(state)@, actions_view(actions@)) == ticked(old(state)@, ages),
{
    let ages = state.toasts.ages();
    let ghost a = ages@;
    let r = step(state, Event::Tick(ages));
    assert(a.len() == old(state)@.toasts.len());
    r
}

/// The tick drops exactly the toasts that have reached their lifetime: no
/// toast is added or reordered, with none expired all stay, and with all
/// expired none do; nothing else in the state changes.
pub proof fn law_tick_prunes_expired(s: AppV, ages: Seq<u64>)
    requires
        ages.len() == s.toasts.len(),
    ensures
        ticked(s, ages).0 == (AppV { toasts: fresh(s.toasts, ages), ..s }),
        ticked(s, ages).0.toasts.len() <= s.toasts.len(),
        (forall|i: int| 0 <= i < s.toasts.len() ==> !expired_at(s.toasts[i].1, #[trigger] ages[i]))
            ==> ticked(s, ages).0.toasts == s.toasts,
        (forall|i: int| 0 <= i < s.toasts.len() ==> expired_at(s.toasts[i].1, #[trigger] ages[i]))
            ==> ticked(s, ages).0.toasts.len() == 0,
{
    law_prune_drops_the_expired(s.toasts, ages);
}

/// Lyrics are fetched once per track: once a track's lyrics (or their
/// absence) are loaded, showing it again asks for nothing.
pub proof fn law_lyrics_fetched_once(s: AppV, key: String)
    ensures
        lyrics_decision(spec_step(s, Event::LyricsLoaded(key)).0.lyrics, key@) == LookupStep::Nothing,
{
}

/// Only a confirmed "Clear caches" forgets lyrics or biographies: every
/// other event keeps what is known.
#[verifier::spinoff_prover]
#[verifier::rlimit(60)]
pub proof fn law_only_clearing_forgets(s: AppV, e: Event)
    requires
        !(e is ClearCaches && s.confirm_clear_caches),
    ensures
        s.lyrics.subset_of(spec_step(s, e).0.lyrics),
        s.artist_bios.subset_of(spec_step(s, e).0.artist_bios),
        s.album_bios.subset_of(spec_step(s, e).0.album_bios),
{
    match e {
        Event::NavigateTo(v) => {
            let s1 = AppV { nav: opened(s.nav, v), ..s };
            assert(entered(s1, v).0.lyrics == s.lyrics);
            assert(entered(s1, v).0.artist_bios == s.artist_bios);
            assert(entered(s1, v).0.album_bios == s.album_bios);
        },
        _ => {},
    }
}

/// Clearing caches takes two presses: the first only arms it; the second
/// forgets all art, lyrics and biographies, disarms, and purges the stores.
pub proof fn law_clearing_takes_two_presses(s: AppV)
    requires
        !s.confirm_clear_caches,
    ensures
        spec_step(s, Event::ClearCaches) == (AppV { confirm_clear_caches: true, ..s }, Seq::<ActionV>::empty()),
        ({
            let s2 = spec_step(spec_step(s, Event::ClearCaches).0, Event::ClearCaches);
            &&& !s2.0.confirm_clear_caches
            &&& s2.0.art == no_art()
            &&& s2.0.lyrics.is_empty() && s2.0.artist_bios.is_empty() && s2.0.album_bios.is_empty()
            &&& s2.1 == seq![ActionV::PurgeStores]
        }),
{
    assert(spec_step(s, Event::ClearCaches).1 =~= Seq::<ActionV>::empty());
}

/// A reported error is shown as the newest toast and becomes the status
/// line, and no more than [`MAX_TOASTS`] toasts are ever shown.
pub proof fn law_error_is_shown(s: AppV, msg: String)
    requires
        s.toasts.len() <= MAX_TOASTS,
    ensures
        spec_step(s, Event::ErrorOccurred(msg)).0.last_error == Some(msg@),
        spec_step(s, Event::ErrorOccurred(msg)).0.toasts.last() == (msg@, true),
        spec_step(s, Event::ErrorOccurred(msg)).0.toasts.len() <= MAX_TOASTS,
{
    law_push_keeps_newest(s.toasts, (msg@, true));
}

/// Switching to the server already in use changes nothing and asks for
/// nothing; switching to another one always loads its own history before
/// connecting to it, starting disconnected with no history shown.
pub proof fn law_switch_server(s: AppV, name: String)
    ensures
        name@ == s.servers.active ==> spec_step(s, Event::SwitchServer(name)) == (s, Seq::<ActionV>::empty()),
        name@ != s.servers.active ==> {
            let r = spec_step(s, Event::SwitchServer(name));
            &&& r.0.servers.active == name@
            &&& !r.0.connected
            &&& r.0.recently_played.len() == 0
            &&& r.0.snap_client is None
            &&& r.1 == seq![ActionV::LoadHistory(name@), ActionV::Connect]
        },
{
    assert(seq![] =~= Seq::<ActionV>::empty());
}

/// Entering Settings disarms the purge, closes any edit or rename, shows
/// the saved cache size again and asks for the cache's size on disk.
pub proof fn law_settings_entry(s: AppV)
    ensures
        ({
            let r = spec_step(s, Event::NavigateTo(View::Settings));
            &&& r.0.nav == opened(s.nav, View::Settings)
            &&& !r.0.confirm_clear_caches
            &&& r.0.editing is None && r.0.renaming is None
            &&& r.0.cache_size_input == decimal(s.art_cache_mb as nat)
            &&& r.1 == seq![ActionV::LoadCacheSize]
        }),
{
}

} // verus!
