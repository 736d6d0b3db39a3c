//! What each event does to the app's state, stated event by event over
//! every state: the laws [`spec_step`] is held to.
use vstd::prelude::*;
use crate::model::{groups_view, RecentlyPlayedEntry, SnapGroup};
use crate::text::decimal;
use crate::ui::app::art::ArtState;
use crate::ui::app::servers::ServerListV;
use crate::ui::app::state::{entered, spec_initial, spec_step, ActionV, AppV, Event, FormsV};
use crate::ui::app::servers::ServerEntry;
use crate::ui::message::{ArtOutcome, View};
use vstd::view::View as DataView;

verus! {

/// Connecting: Connect asks the shell to connect and changes nothing; a
/// connection that is up clears the status line and restores a partition;
/// a failure leaves the app disconnected and shows the reason as an error;
/// the refresh after connecting marks the app connected and loads
/// everything; a disconnect leaves it disconnected, and the slow timer asks
/// for a reconnect exactly while disconnected.
#[verifier::spinoff_prover]
pub proof fn law_connecting(s: AppV, msg: String)
    ensures
        spec_step(s, Event::Connect) == (s, seq![ActionV::Connect]),
        spec_step(s, Event::Connected).0 == (AppV { last_error: None, ..s }),
        spec_step(s, Event::Connected).1.len() == 1,
        spec_step(s, Event::Connected).1[0] is RestorePartition,
        spec_step(s, Event::ConnectFailed(msg)).0 == (AppV {
            connected: false,
            last_error: Some(msg@),
            toasts: (if s.toasts.len() < 3 { s.toasts.push((msg@, true)) } else { s.toasts.subrange(s.toasts.len() - 2, s.toasts.len() as int).push((msg@, true)) }),
            ..s
        }),
        spec_step(s, Event::ConnectFailed(msg)).1 == Seq::<ActionV>::empty(),
        spec_step(s, Event::RefreshAll) == (AppV { connected: true, ..s }, seq![ActionV::FetchAll, ActionV::FetchRecentArt]),
        spec_step(s, Event::Disconnected) == (AppV { connected: false, ..s }, Seq::<ActionV>::empty()),
        spec_step(s, Event::ConnectionTick).0 == s,
        spec_step(s, Event::ConnectionTick).1 == (if s.connected { Seq::<ActionV>::empty() } else { seq![ActionV::Reconnect] }),
        spec_step(spec_step(s, Event::Disconnected).0, Event::ConnectionTick).1 == seq![ActionV::Reconnect],
        !spec_step(spec_step(s, Event::RefreshAll).0, Event::Disconnected).0.connected,
{
    assert(seq![] =~= Seq::<ActionV>::empty());
}

/// Navigation: opening a view puts it on screen and the previous one on
/// the history; Back returns to the most recent history entry, or does
/// nothing without one, and asks for nothing.
#[verifier::spinoff_prover]
pub proof fn law_navigating(s: AppV, v: View)
    ensures
        spec_step(s, Event::NavigateTo(v)).0.nav.0 == v,
        spec_step(s, Event::NavigateTo(v)).0.nav.1 == s.nav.1.push(s.nav.0),
        spec_step(s, Event::GoBack) == (
            AppV {
                nav: if s.nav.1.len() > 0 { (s.nav.1.last(), s.nav.1.drop_last()) } else { s.nav },
                ..s
            },
            Seq::<ActionV>::empty(),
        ),
{
    assert(seq![] =~= Seq::<ActionV>::empty());
}

/// What entering each view asks for.
#[verifier::spinoff_prover]
pub proof fn law_view_entry(s: AppV)
    ensures
        entered(s, View::NowPlaying) == (s, seq![ActionV::ResetLyricsScroll]),
        entered(s, View::Artists) == (s, seq![ActionV::LoadArtists]),
        entered(s, View::Library) == (s, seq![ActionV::LoadArtists]),
        entered(s, View::Albums) == (s, seq![ActionV::LoadAlbums]),
        entered(s, View::Genres) == (s, seq![ActionV::LoadGenres]),
        entered(s, View::Browser) == (s, seq![ActionV::LoadBrowser]),
        entered(s, View::Outputs) == (s, seq![ActionV::LoadOutputs]),
        entered(s, View::Partitions) == (s, seq![ActionV::LoadPartitions]),
        entered(s, View::Playlists) == (s, seq![ActionV::LoadPlaylists]),
        entered(s, View::ServerStats) == (s, seq![ActionV::FetchStats]),
        entered(s, View::RecentlyPlayed) == (s, seq![ActionV::QueueListArt]),
        entered(s, View::RecentlyAdded) == (s, seq![ActionV::LoadRecentlyAdded]),
        entered(s, View::Queue) == (s, Seq::<ActionV>::empty()),
        entered(s, View::Radio) == (s, Seq::<ActionV>::empty()),
        entered(s, View::Log) == (s, Seq::<ActionV>::empty()),
        entered(s, View::Settings) == (
            AppV {
                confirm_clear_caches: false,
                editing: None,
                renaming: None,
                cache_size_input: decimal(s.art_cache_mb as nat),
                ..s
            },
            seq![ActionV::LoadCacheSize],
        ),
        entered(s, View::Snapcast).0 == s,
        entered(s, View::Snapcast).1.len() <= 1,
{
    assert(seq![] =~= Seq::<ActionV>::empty());
}

/// The history: a loaded history replaces the one shown; clearing it
/// empties it and stores the empty history for the server in use.
#[verifier::spinoff_prover]
pub proof fn law_history_events(s: AppV, entries: Vec<RecentlyPlayedEntry>)
    ensures
        spec_step(s, Event::RecentlyPlayedLoaded(entries)) == (AppV { recently_played: entries@, ..s }, Seq::<ActionV>::empty()),
        spec_step(s, Event::ClearRecentlyPlayed) == (
            AppV { recently_played: Seq::empty(), ..s },
            seq![ActionV::ClearHistory(s.servers.active)],
        ),
{
    assert(seq![] =~= Seq::<ActionV>::empty());
}

/// The cache controls: cancelling disarms the purge; the purge's end shows
/// an empty cache and measures it again and refills the covers on screen;
/// a measured size is shown.
#[verifier::spinoff_prover]
pub proof fn law_cache_controls(s: AppV, bytes: u64)
    ensures
        spec_step(s, Event::CancelClearCaches) == (AppV { confirm_clear_caches: false, ..s }, Seq::<ActionV>::empty()),
        spec_step(s, Event::CachesCleared) == (
            AppV { cache_size_bytes: Some(0), ..s },
            seq![ActionV::QueueListArt, ActionV::LoadCacheSize],
        ),
        spec_step(s, Event::CacheSizeLoaded(bytes)) == (AppV { cache_size_bytes: Some(bytes), ..s }, Seq::<ActionV>::empty()),
        s.confirm_clear_caches ==> spec_step(s, Event::ClearCaches) == (
            AppV {
                confirm_clear_caches: false,
                art: ArtState {
                    loaded: Set::empty(),
                    missing: Set::empty(),
                    queue: Seq::empty(),
                    pending: Set::empty(),
                    inflight: 0,
                    mb_queue: Seq::empty(),
                    mb_pending: Set::empty(),
                    mb_inflight: 0,
                },
                lyrics: Set::empty(),
                artist_bios: Set::empty(),
                album_bios: Set::empty(),
                ..s
            },
            seq![ActionV::PurgeStores],
        ),
{
    assert(seq![] =~= Seq::<ActionV>::empty());
}

/// Making a server the default records it and saves the configuration
/// first; the server in use becomes it (switching when it was another).
#[verifier::spinoff_prover]
pub proof fn law_default_server(s: AppV, name: String)
    ensures
        spec_step(s, Event::SetDefaultServer(name)).0.servers.default_server == Some(name@),
        spec_step(s, Event::SetDefaultServer(name)).0.servers.active == name@,
        spec_step(s, Event::SetDefaultServer(name)).1[0] == ActionV::SaveConfig,
        name@ == s.servers.active ==> spec_step(s, Event::SetDefaultServer(name)) == (
            AppV { servers: ServerListV { default_server: Some(name@), ..s.servers }, ..s },
            seq![ActionV::SaveConfig],
        ),
        name@ != s.servers.active ==> spec_step(s, Event::SetDefaultServer(name)).1
            == seq![ActionV::SaveConfig, ActionV::LoadHistory(name@), ActionV::Connect],
        name@ != s.servers.active ==> !spec_step(s, Event::SetDefaultServer(name)).0.connected,
{
}

/// Removing a server: the only server is never removed; otherwise the
/// configuration is saved and the server's history deleted, and no server
/// of that name is left.
#[verifier::spinoff_prover]
pub proof fn law_remove_server(s: AppV, name: String)
    ensures
        s.servers.servers.len() <= 1 ==> spec_step(s, Event::RemoveServer(name)) == (s, Seq::<ActionV>::empty()),
        s.servers.servers.len() > 1 ==> {
            let r = spec_step(s, Event::RemoveServer(name));
            &&& r.1.len() >= 2
            &&& r.1[0] == ActionV::SaveConfig
            &&& r.1[1] == ActionV::DeleteHistory(name@)
            &&& forall|i: int| 0 <= i < r.0.servers.servers.len() ==> #[trigger] r.0.servers.servers[i].name != name@
        },
{
    assert(seq![] =~= Seq::<ActionV>::empty());
    if s.servers.servers.len() > 1 {
        let pred = |sv: crate::ui::app::servers::ServerV| sv.name != name@;
        let rest = s.servers.servers.filter(pred);
        assert forall|i: int| 0 <= i < rest.len() implies #[trigger] rest[i].name != name@ by {
            s.servers.servers.lemma_filter_pred(pred, i);
        }
    }
}

/// The rename and edit forms: starting a rename opens it with the current
/// name; typing changes the field; confirming or cancelling closes it and
/// empties the field; cancelling an edit closes it. None asks for anything
/// but a confirmed rename, which saves.
#[verifier::spinoff_prover]
pub proof fn law_rename_forms(s: AppV, name: String, text: String)
    ensures
        spec_step(s, Event::StartRename(name)) == (AppV { renaming: Some(name@), rename_input: name@, ..s }, Seq::<ActionV>::empty()),
        spec_step(s, Event::RenameInputChanged(text)) == (AppV { rename_input: text@, ..s }, Seq::<ActionV>::empty()),
        spec_step(s, Event::CancelRename) == (AppV { renaming: None, rename_input: Seq::empty(), ..s }, Seq::<ActionV>::empty()),
        spec_step(s, Event::CancelEditServer) == (AppV { editing: None, ..s }, Seq::<ActionV>::empty()),
        spec_step(s, Event::ConfirmRename).0.renaming is None,
        spec_step(s, Event::ConfirmRename).0.rename_input.len() == 0,
        spec_step(s, Event::ConfirmRename).1.len() <= 1,
        s.renaming is None ==> spec_step(s, Event::ConfirmRename) == (AppV { rename_input: Seq::empty(), ..s }, Seq::<ActionV>::empty()),
{
    assert(seq![] =~= Seq::<ActionV>::empty());
}

/// Each display toggle flips its own flag and nothing else; resuming the
/// lyrics follow snaps to the active line, and the album layout is saved
/// and its covers queued.
#[verifier::spinoff_prover]
#[verifier::rlimit(100)]
pub proof fn law_toggles(s: AppV)
    ensures
        spec_step(s, Event::ToggleLyrics) == (AppV { show_lyrics: !s.show_lyrics, ..s }, Seq::<ActionV>::empty()),
        spec_step(s, Event::ToggleLyricsFollow) == (
            AppV { lyrics_follow: !s.lyrics_follow, ..s },
            if s.lyrics_follow { Seq::<ActionV>::empty() } else { seq![ActionV::LyricsAutoscroll] },
        ),
        spec_step(s, Event::ToggleArtistBio) == (AppV { show_artist_bio: !s.show_artist_bio, ..s }, Seq::<ActionV>::empty()),
        spec_step(s, Event::ToggleAlbumBio) == (AppV { show_album_bio: !s.show_album_bio, ..s }, Seq::<ActionV>::empty()),
        spec_step(s, Event::LogToggleMpdOnly) == (AppV { log_show_mpd_only: !s.log_show_mpd_only, ..s }, Seq::<ActionV>::empty()),
        spec_step(s, Event::ToggleRecentlyPlayedMode) == (
            AppV { recently_played_show_albums: !s.recently_played_show_albums, ..s },
            Seq::<ActionV>::empty(),
        ),
        spec_step(s, Event::ToggleAlbumGridView) == (
            AppV { album_grid_view: !s.album_grid_view, ..s },
            seq![ActionV::SaveConfig, ActionV::QueueListArt],
        ),
{
    assert(seq![] =~= Seq::<ActionV>::empty());
}

/// Toggling a panel twice leaves the state as it was.
#[verifier::spinoff_prover]
pub proof fn law_toggle_twice(s: AppV)
    ensures
        spec_step(spec_step(s, Event::ToggleAlbumBio).0, Event::ToggleAlbumBio).0 == s,
        spec_step(spec_step(s, Event::ToggleArtistBio).0, Event::ToggleArtistBio).0 == s,
        spec_step(spec_step(s, Event::ToggleLyrics).0, Event::ToggleLyrics).0 == s,
{
}

/// What is learnt is remembered: loaded lyrics, biographies and covers
/// join their sets, and nothing else changes or is asked for.
#[verifier::spinoff_prover]
pub proof fn law_known(s: AppV, key: String)
    ensures
        spec_step(s, Event::LyricsLoaded(key)) == (AppV { lyrics: s.lyrics.insert(key@), ..s }, Seq::<ActionV>::empty()),
        spec_step(s, Event::ArtistBioLoaded(key)) == (AppV { artist_bios: s.artist_bios.insert(key@), ..s }, Seq::<ActionV>::empty()),
        spec_step(s, Event::AlbumBioLoaded(key)) == (AppV { album_bios: s.album_bios.insert(key@), ..s }, Seq::<ActionV>::empty()),
        spec_step(s, Event::ArtLoaded(key)) == (
            AppV { art: ArtState { loaded: s.art.loaded.insert(key@), ..s.art }, ..s },
            Seq::<ActionV>::empty(),
        ),
{
    assert(seq![] =~= Seq::<ActionV>::empty());
}

/// A finished art fetch changes only the art queue and asks only to start
/// fetches; a found cover is marked loaded, a final miss marked missing.
#[verifier::spinoff_prover]
pub proof fn law_art_fetched(s: AppV, key: String, outcome: ArtOutcome)
    ensures
        spec_step(s, Event::AlbumArtFetched(key, outcome)).0 == (AppV {
            art: spec_step(s, Event::AlbumArtFetched(key, outcome)).0.art,
            ..s
        }),
        spec_step(s, Event::AlbumArtFetched(key, outcome)).1.len() == 1,
        spec_step(s, Event::AlbumArtFetched(key, outcome)).1[0] is StartArt,
        (outcome matches ArtOutcome::Loaded(b) && b@.len() > 0)
            ==> spec_step(s, Event::AlbumArtFetched(key, outcome)).0.art.loaded.contains(key@),
        outcome is Missing ==> spec_step(s, Event::AlbumArtFetched(key, outcome)).0.art.missing.contains(key@),
{
}

/// Notices: the start of a database update is shown as a note and the
/// statistics reloaded; an error is shown as an error; both become the
/// status line. Dismissing removes the oldest toast. The palette choice is
/// applied and saved.
#[verifier::spinoff_prover]
pub proof fn law_notices(s: AppV, msg: String, dark: bool)
    ensures
        spec_step(s, Event::DatabaseUpdating) == (
            AppV {
                last_error: Some("Database update started"@),
                toasts: (if s.toasts.len() < 3 { s.toasts.push(("Database update started"@, false)) } else { s.toasts.subrange(s.toasts.len() - 2, s.toasts.len() as int).push(("Database update started"@, false)) }),
                ..s
            },
            seq![ActionV::FetchStats],
        ),
        spec_step(s, Event::ErrorOccurred(msg)) == (
            AppV { last_error: Some(msg@), toasts: (if s.toasts.len() < 3 { s.toasts.push((msg@, true)) } else { s.toasts.subrange(s.toasts.len() - 2, s.toasts.len() as int).push((msg@, true)) }), ..s },
            Seq::<ActionV>::empty(),
        ),
        spec_step(s, Event::DismissToast) == (
            AppV { toasts: if s.toasts.len() > 0 { s.toasts.subrange(1, s.toasts.len() as int) } else { s.toasts }, ..s },
            Seq::<ActionV>::empty(),
        ),
        spec_step(s, Event::SetDarkMode(dark)) == (
            AppV { dark_mode: dark, ..s },
            seq![ActionV::ApplyTheme(dark), ActionV::SaveConfig],
        ),
{
    assert(seq![] =~= Seq::<ActionV>::empty());
    assert(s.toasts.len() > 0 ==> s.toasts.drop_first() =~= s.toasts.subrange(1, s.toasts.len() as int));
    if s.toasts.len() >= 3 {
        assert(s.toasts.skip(s.toasts.len() - 2) =~= s.toasts.subrange(s.toasts.len() - 2, s.toasts.len() as int));
    }
}

/// The Snapcast panel: a status replaces what is shown and clears the
/// error; an unreachable server is reported and what was shown stays; the
/// inactive clients are shown or hidden; a built client is remembered.
#[verifier::spinoff_prover]
pub proof fn law_snapcast_panel(s: AppV, groups: Vec<SnapGroup>, streams: Vec<String>, msg: String)
    ensures
        spec_step(s, Event::SnapcastStatusLoaded(groups, streams)) == (
            AppV { snap_groups: groups_view(groups@), snap_streams: streams@, snap_error: None, ..s },
            Seq::<ActionV>::empty(),
        ),
        spec_step(s, Event::SnapcastUnreachable(msg)) == (AppV { snap_error: Some(msg@), ..s }, Seq::<ActionV>::empty()),
        spec_step(s, Event::SnapcastToggleShowInactive) == (
            AppV { snap_show_inactive: !s.snap_show_inactive, ..s },
            Seq::<ActionV>::empty(),
        ),
        spec_step(s, Event::SnapcastClientBuilt(msg)) == (AppV { snap_client: Some(msg@), ..s }, Seq::<ActionV>::empty()),
{
    assert(seq![] =~= Seq::<ActionV>::empty());
}

/// A Snapcast control is sent exactly when there is a client, changes only
/// the groups shown, and asks for at most that request.
#[verifier::spinoff_prover]
pub proof fn law_snapcast_controls(s: AppV, id: String, percent: u8, muted: bool, stream: String)
    ensures
        ({
            let r = spec_step(s, Event::SnapcastSetVolume(id, percent));
            &&& r.0 == (AppV { snap_groups: r.0.snap_groups, ..s })
            &&& r.1.len() == (if s.snap_client is Some { 1int } else { 0 })
            &&& s.snap_client is Some ==> (r.1[0] matches ActionV::SnapSetVolume(c, p, _) && c == id@ && p == percent)
        }),
        ({
            let r = spec_step(s, Event::SnapcastToggleClientMute(id, muted));
            &&& r.0 == (AppV { snap_groups: r.0.snap_groups, ..s })
            &&& r.1.len() == (if s.snap_client is Some { 1int } else { 0 })
            &&& s.snap_client is Some ==> (r.1[0] matches ActionV::SnapSetVolume(c, _, m) && c == id@ && m == !muted)
        }),
        ({
            let r = spec_step(s, Event::SnapcastToggleGroupMute(id, muted));
            &&& r.0 == (AppV { snap_groups: r.0.snap_groups, ..s })
            &&& r.1 == (if s.snap_client is Some { seq![ActionV::SnapSetGroupMute(id@, !muted)] } else { Seq::<ActionV>::empty() })
        }),
        ({
            let r = spec_step(s, Event::SnapcastSetGroupStream(id, stream));
            &&& r.0 == (AppV { snap_groups: r.0.snap_groups, ..s })
            &&& r.1 == (if s.snap_client is Some { seq![ActionV::SnapSetGroupStream(id@, stream@)] } else { Seq::<ActionV>::empty() })
        }),
{
    assert(seq![] =~= Seq::<ActionV>::empty());
}

/// Playlists and the queue: playing a stored playlist remembers it as
/// what is playing and asks to play it from the start or the position;
/// appending, clearing or any other queue edit forgets it; deleting a
/// playlist asks for it, and leaves its page when it is on screen.
#[verifier::spinoff_prover]
pub proof fn law_playlists(s: AppV, name: String, pos: u32)
    ensures
        spec_step(s, Event::PlaylistPlay(name)) == (
            AppV { playing_from_playlist: Some(name@), ..s },
            seq![ActionV::PlayPlaylist(name@, 0)],
        ),
        spec_step(s, Event::PlaylistPlayAt(name, pos)) == (
            AppV { playing_from_playlist: Some(name@), ..s },
            seq![ActionV::PlayPlaylist(name@, pos)],
        ),
        spec_step(s, Event::PlaylistAppend(name)) == (
            AppV { playing_from_playlist: None, ..s },
            seq![ActionV::AppendPlaylist(name@)],
        ),
        spec_step(s, Event::QueueClear) == (AppV { playing_from_playlist: None, ..s }, seq![ActionV::ClearQueue]),
        spec_step(s, Event::QueueEdited) == (AppV { playing_from_playlist: None, ..s }, Seq::<ActionV>::empty()),
        spec_step(s, Event::PlaylistDelete(name)).1 == seq![ActionV::DeletePlaylist(name@)],
        spec_step(s, Event::PlaylistDelete(name)).0.nav.1 == s.nav.1,
        (s.nav.0 matches View::PlaylistDetail(n) && n@ == name@)
            ==> spec_step(s, Event::PlaylistDelete(name)).0.nav.0 == View::Playlists,
        !(s.nav.0 matches View::PlaylistDetail(n) && n@ == name@)
            ==> spec_step(s, Event::PlaylistDelete(name)).0 == s,
{
    assert(seq![] =~= Seq::<ActionV>::empty());
}

/// A counted play goes first in the history, which is then stored for the
/// server in use.
#[verifier::spinoff_prover]
pub proof fn law_play_recorded(s: AppV, e: RecentlyPlayedEntry)
    ensures
        spec_step(s, Event::PlayRecorded(e)).1 == seq![ActionV::StoreHistory(s.servers.active)],
        spec_step(s, Event::PlayRecorded(e)).0.recently_played.len() > 0,
        spec_step(s, Event::PlayRecorded(e)).0.recently_played[0] == e,
        spec_step(s, Event::PlayRecorded(e)).0 == (AppV {
            recently_played: spec_step(s, Event::PlayRecorded(e)).0.recently_played,
            ..s
        }),
{
    crate::ui::app::history::law_history_keeps_30_days(s.recently_played, e);
}

/// Typing into a form changes that field only.
#[verifier::spinoff_prover]
pub proof fn law_typing(s: AppV, t: String)
    ensures
        spec_step(s, Event::ServerNameChanged(t)) == (AppV { forms: FormsV { add_name: t@, ..s.forms }, ..s }, Seq::<ActionV>::empty()),
        spec_step(s, Event::HostChanged(t)) == (AppV { forms: FormsV { add_host: t@, ..s.forms }, ..s }, Seq::<ActionV>::empty()),
        spec_step(s, Event::PortChanged(t)) == (AppV { forms: FormsV { add_port: t@, ..s.forms }, ..s }, Seq::<ActionV>::empty()),
        spec_step(s, Event::PasswordChanged(t)) == (AppV { forms: FormsV { add_password: t@, ..s.forms }, ..s }, Seq::<ActionV>::empty()),
        spec_step(s, Event::EditServerHost(t)) == (AppV { forms: FormsV { edit_host: t@, ..s.forms }, ..s }, Seq::<ActionV>::empty()),
        spec_step(s, Event::EditServerPort(t)) == (AppV { forms: FormsV { edit_port: t@, ..s.forms }, ..s }, Seq::<ActionV>::empty()),
        spec_step(s, Event::EditServerPassword(t)) == (AppV { forms: FormsV { edit_password: t@, ..s.forms }, ..s }, Seq::<ActionV>::empty()),
        spec_step(s, Event::EditServerSnapHost(t)) == (AppV { forms: FormsV { edit_snap_host: t@, ..s.forms }, ..s }, Seq::<ActionV>::empty()),
        spec_step(s, Event::EditServerSnapPort(t)) == (AppV { forms: FormsV { edit_snap_port: t@, ..s.forms }, ..s }, Seq::<ActionV>::empty()),
        spec_step(s, Event::SearchQueryChanged(t)) == (AppV { forms: FormsV { search_query: t@, ..s.forms }, ..s }, Seq::<ActionV>::empty()),
        spec_step(s, Event::ArtCacheSizeChanged(t)) == (AppV { cache_size_input: t@, ..s }, Seq::<ActionV>::empty()),
{
    assert(seq![] =~= Seq::<ActionV>::empty());
}

/// Submitting forms: a search asks for the query typed; "Add server" adds
/// at most one server, saving when it does; saving the edit form always
/// closes it; opening a server for editing opens it only for a configured
/// server; saving the cache size field leaves it showing the size in use.
#[verifier::spinoff_prover]
pub proof fn law_submits(s: AppV, name: String)
    ensures
        spec_step(s, Event::SearchSubmit) == (s, seq![ActionV::Search(s.forms.search_query)]),
        ({
            let r = spec_step(s, Event::AddServer);
            ||| r == (s, Seq::<ActionV>::empty())
            ||| (r.0.servers.servers.len() == s.servers.servers.len() + 1
                && r.0.servers.servers.take(s.servers.servers.len() as int) == s.servers.servers
                && r.1 == seq![ActionV::SaveConfig])
        }),
        spec_step(s, Event::ConfirmEditServer).0.editing is None,
        s.editing is None ==> spec_step(s, Event::ConfirmEditServer) == (s, Seq::<ActionV>::empty()),
        spec_step(s, Event::StartEditServer(name)).1 == Seq::<ActionV>::empty(),
        spec_step(s, Event::StartEditServer(name)).0.editing == Some(name@)
            || spec_step(s, Event::StartEditServer(name)).0 == s,
        spec_step(s, Event::SaveArtCacheSize).0.cache_size_input
            == decimal(spec_step(s, Event::SaveArtCacheSize).0.art_cache_mb as nat),
        spec_step(s, Event::SaveArtCacheSize).1.len() == 0 ==> spec_step(s, Event::SaveArtCacheSize).0.art_cache_mb == s.art_cache_mb,
{
    assert(seq![] =~= Seq::<ActionV>::empty());
    let r = spec_step(s, Event::AddServer);
    if r.0.servers.servers.len() == s.servers.servers.len() + 1 {
        assert(r.0.servers.servers.take(s.servers.servers.len() as int) =~= s.servers.servers);
    }
}

/// Startup: Now Playing with no history of views, disconnected, nothing
/// shown; the shell applies the palette, loads the server's history and
/// connects, in that order.
#[verifier::spinoff_prover]
pub proof fn law_startup(
    servers: Seq<ServerEntry>,
    default_server: Option<Seq<char>>,
    legacy: Option<Seq<char>>,
    dark: bool,
    mb: u32,
    grid: bool,
)
    ensures
        ({
            let r = spec_initial(servers, default_server, legacy, dark, mb, grid);
            &&& r.0.nav.0 == View::NowPlaying
            &&& r.0.nav.1.len() == 0
            &&& !r.0.connected
            &&& r.0.toasts.len() == 0
            &&& r.0.recently_played.len() == 0
            &&& r.0.last_error is None
            &&& r.0.dark_mode == dark
            &&& r.0.art_cache_mb == mb
            &&& r.0.album_grid_view == grid
            &&& r.0.cache_size_input == decimal(mb as nat)
            &&& r.1 == seq![ActionV::ApplyTheme(dark), ActionV::LoadHistory(r.0.servers.active), ActionV::Connect]
            &&& (default_server matches Some(d) ==> r.0.servers.active == d)
        }),
{
}

} // verus!
