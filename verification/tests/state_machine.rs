use winrmpc::keyset::KeySet;
use winrmpc::model::{RecentlyPlayedEntry, SnapClient, SnapGroup};
use winrmpc::ui::app::lyrics::{lyrics_after_store, lyrics_step, AfterStore, LookupStep};
use winrmpc::ui::app::servers::ServerEntry;
use winrmpc::ui::app::state::{enter_view, initial_state, step, Action, AppState, Event};
use winrmpc::ui::message::{ArtOutcome, View};

fn server(name: &str, partition: Option<&str>) -> ServerEntry {
    ServerEntry {
        name: name.to_string(),
        host: format!("{name}.local"),
        port: 6600,
        password: None,
        default_partition: partition.map(|p| p.to_string()),
        snapcast_host: None,
        snapcast_port: None,
    }
}

fn fresh() -> AppState {
    initial_state(vec![server("home", None), server("studio", Some("hifi"))], None, Some("old".to_string()), true, 500, false).0
}

fn entry(title: &str) -> RecentlyPlayedEntry {
    RecentlyPlayedEntry {
        file: format!("{title}.flac"),
        title: title.to_string(),
        artist: "A".to_string(),
        album_artist: "A".to_string(),
        album: "B".to_string(),
        played_at: 1_700_000_000,
    }
}

fn kinds(actions: &[Action]) -> Vec<String> {
    actions.iter().map(|a| format!("{a:?}")).collect()
}

#[test]
fn startup_uses_the_default_server_and_connects() {
    let (s, actions) =
        initial_state(vec![server("home", None), server("studio", None)], Some("studio".to_string()), None, true, 250, true);
    assert_eq!(s.servers.active, "studio");
    assert!(!s.connected);
    assert_eq!(s.nav.current(), &View::NowPlaying);
    assert_eq!(s.settings.cache_size_input, "250");
    assert!(s.show_lyrics && s.lyrics_follow && s.album_grid_view);
    assert_eq!(kinds(&actions), vec!["ApplyTheme(true)", "LoadHistory(\"studio\")", "Connect"]);
    let (s, _) = initial_state(vec![], None, None, false, 1, false);
    assert_eq!(s.servers.active, "Default");
}

#[test]
fn an_error_toast_becomes_the_status_line() {
    let mut s = fresh();
    let a = step(&mut s, Event::ErrorOccurred("boom".to_string()));
    assert!(a.is_empty());
    assert_eq!(s.last_error.as_deref(), Some("boom"));
    assert_eq!(s.toasts.len(), 1);
    assert_eq!(s.toasts.get(0).text, "boom");
    assert!(s.toasts.get(0).is_error);
    for i in 0..5 {
        step(&mut s, Event::ErrorOccurred(format!("e{i}")));
    }
    assert_eq!(s.toasts.len(), 3);
    assert_eq!(s.toasts.get(2).text, "e4");
    let a = step(&mut s, Event::DatabaseUpdating);
    assert_eq!(kinds(&a), vec!["FetchStats"]);
    assert_eq!(s.last_error.as_deref(), Some("Database update started"));
    assert!(!s.toasts.get(2).is_error);
    step(&mut s, Event::DismissToast);
    assert_eq!(s.toasts.len(), 2);
    assert_eq!(s.toasts.get(0).text, "e4");
}

#[test]
fn clearing_caches_takes_two_presses_and_forgets_lyrics_and_bios() {
    let mut s = fresh();
    step(&mut s, Event::LyricsLoaded("k".to_string()));
    step(&mut s, Event::ArtistBioLoaded("A".to_string()));
    step(&mut s, Event::AlbumBioLoaded("B".to_string()));
    step(&mut s, Event::ArtLoaded("A\u{1f}B".to_string()));
    let a = step(&mut s, Event::ClearCaches);
    assert!(a.is_empty());
    assert!(s.settings.confirm_clear_caches);
    assert!(s.lyrics.contains("k") && s.art.has_art("A\u{1f}B"));
    let a = step(&mut s, Event::ClearCaches);
    assert_eq!(kinds(&a), vec!["PurgeStores"]);
    assert!(!s.settings.confirm_clear_caches);
    assert!(!s.lyrics.contains("k") && !s.artist_bios.contains("A") && !s.album_bios.contains("B"));
    assert!(!s.art.has_art("A\u{1f}B"));
    let a = step(&mut s, Event::CachesCleared);
    assert_eq!(kinds(&a), vec!["QueueListArt", "LoadCacheSize"]);
    assert_eq!(s.cache_size_bytes, Some(0));
    step(&mut s, Event::ClearCaches);
    step(&mut s, Event::CancelClearCaches);
    assert!(!s.settings.confirm_clear_caches);
}

#[test]
fn switching_servers_loads_that_servers_history_then_connects() {
    let mut s = fresh();
    step(&mut s, Event::RefreshAll);
    step(&mut s, Event::RecentlyPlayedLoaded(vec![entry("x")]));
    step(&mut s, Event::SnapcastClientBuilt("home.local:1705".to_string()));
    step(&mut s, Event::ArtLoaded("A\u{1f}B".to_string()));
    assert!(s.connected);
    let a = step(&mut s, Event::SwitchServer("home".to_string()));
    assert!(a.is_empty());
    assert!(s.connected && s.recently_played.len() == 1);
    let a = step(&mut s, Event::SwitchServer("studio".to_string()));
    assert_eq!(kinds(&a), vec!["LoadHistory(\"studio\")", "Connect"]);
    assert_eq!(s.servers.active, "studio");
    assert!(!s.connected);
    assert!(s.recently_played.is_empty());
    assert!(s.snapcast_client.is_none());
    assert!(s.art.has_art("A\u{1f}B"));
    let a = step(&mut s, Event::Connected);
    assert_eq!(kinds(&a), vec!["RestorePartition(Some(\"hifi\"))"]);
    let a = step(&mut s, Event::SetDefaultServer("home".to_string()));
    assert_eq!(kinds(&a), vec!["SaveConfig", "LoadHistory(\"home\")", "Connect"]);
    assert_eq!(s.servers.default_server.as_deref(), Some("home"));
    // switching copied home's own (absent) partition over the one saved
    // before servers had their own, so there is nothing to restore
    let a = step(&mut s, Event::Connected);
    assert_eq!(kinds(&a), vec!["RestorePartition(None)"]);
    // at startup, before any switch, the saved one is still used
    let mut t = fresh();
    assert_eq!(kinds(&step(&mut t, Event::Connected)), vec!["RestorePartition(Some(\"old\"))"]);
}

#[test]
fn removing_the_active_server_deletes_its_history_and_switches() {
    let mut s = fresh();
    let a = step(&mut s, Event::RemoveServer("home".to_string()));
    assert_eq!(kinds(&a), vec!["SaveConfig", "DeleteHistory(\"home\")", "LoadHistory(\"studio\")", "Connect"]);
    assert_eq!(s.servers.active, "studio");
    let a = step(&mut s, Event::RemoveServer("studio".to_string()));
    assert!(a.is_empty());
    assert_eq!(s.servers.servers.len(), 1);
}

#[test]
fn renaming_a_server_takes_a_free_trimmed_name() {
    let mut s = fresh();
    step(&mut s, Event::StartRename("home".to_string()));
    assert_eq!(s.rename_input, "home");
    step(&mut s, Event::RenameInputChanged("  studio ".to_string()));
    assert!(step(&mut s, Event::ConfirmRename).is_empty());
    assert_eq!(s.servers.servers[0].name, "home");
    assert!(s.settings.renaming.is_none() && s.rename_input.is_empty());
    step(&mut s, Event::StartRename("home".to_string()));
    step(&mut s, Event::RenameInputChanged(" lounge ".to_string()));
    assert_eq!(kinds(&step(&mut s, Event::ConfirmRename)), vec!["SaveConfig"]);
    assert_eq!(s.servers.servers[0].name, "lounge");
    assert_eq!(s.servers.active, "lounge");
}

#[test]
fn entering_settings_resets_the_form_and_measures_the_cache() {
    let mut s = fresh();
    step(&mut s, Event::ClearCaches);
    s.settings.editing = Some("home".to_string());
    s.settings.cache_size_input = "12x".to_string();
    let a = step(&mut s, Event::NavigateTo(View::Settings));
    assert_eq!(kinds(&a), vec!["LoadCacheSize"]);
    assert_eq!(s.nav.current(), &View::Settings);
    assert!(!s.settings.confirm_clear_caches && s.settings.editing.is_none());
    assert_eq!(s.settings.cache_size_input, "500");
    step(&mut s, Event::CacheSizeLoaded(4096));
    assert_eq!(s.cache_size_bytes, Some(4096));
}

#[test]
fn each_view_loads_what_it_shows() {
    let mut s = fresh();
    let cases = [
        (View::NowPlaying, "ResetLyricsScroll"),
        (View::Artists, "LoadArtists"),
        (View::Library, "LoadArtists"),
        (View::Albums, "LoadAlbums"),
        (View::Genres, "LoadGenres"),
        (View::Browser, "LoadBrowser"),
        (View::Outputs, "LoadOutputs"),
        (View::Partitions, "LoadPartitions"),
        (View::Playlists, "LoadPlaylists"),
        (View::ServerStats, "FetchStats"),
        (View::RecentlyPlayed, "QueueListArt"),
        (View::RecentlyAdded, "LoadRecentlyAdded"),
        (View::Snapcast, "LoadSnapcast(None)"),
        (View::NowPlaying, "ResetLyricsScroll"),
    ];
    for (v, expected) in cases {
        assert_eq!(kinds(&enter_view(&mut s, &v)), vec![expected], "{v:?}");
    }
    assert!(enter_view(&mut s, &View::Radio).is_empty());
    assert!(enter_view(&mut s, &View::Queue).is_empty());
}

#[test]
fn back_returns_to_the_previous_view_and_loads_nothing() {
    let mut s = fresh();
    step(&mut s, Event::NavigateTo(View::Albums));
    step(&mut s, Event::NavigateTo(View::Genres));
    assert!(step(&mut s, Event::GoBack).is_empty());
    assert_eq!(s.nav.current(), &View::Albums);
}

#[test]
fn the_connection_timers_reconnect_only_while_down() {
    let mut s = fresh();
    assert_eq!(kinds(&step(&mut s, Event::ConnectionTick)), vec!["Reconnect"]);
    assert_eq!(kinds(&step(&mut s, Event::Tick(vec![]))), vec!["RefreshLog"]);
    assert_eq!(kinds(&step(&mut s, Event::RefreshAll)), vec!["FetchAll", "FetchRecentArt"]);
    assert!(step(&mut s, Event::ConnectionTick).is_empty());
    assert_eq!(kinds(&step(&mut s, Event::Tick(vec![]))), vec!["RefreshLog", "RefreshStatus", "LyricsAutoscroll"]);
    step(&mut s, Event::NavigateTo(View::ServerStats));
    assert_eq!(kinds(&step(&mut s, Event::Tick(vec![]))), vec!["RefreshLog", "RefreshStatus", "LyricsAutoscroll", "FetchStats"]);
    step(&mut s, Event::ConnectFailed("refused".to_string()));
    assert!(!s.connected);
    assert_eq!(s.last_error.as_deref(), Some("refused"));
    step(&mut s, Event::Connected);
    assert!(s.last_error.is_none());
}

#[test]
fn lyrics_are_fetched_once_per_track() {
    let mut s = fresh();
    assert_eq!(lyrics_step(&s.lyrics, "a|b"), LookupStep::ReadStore);
    step(&mut s, Event::LyricsLoaded("a|b".to_string()));
    assert_eq!(lyrics_step(&s.lyrics, "a|b"), LookupStep::Nothing);
    assert_eq!(lyrics_step(&KeySet::new(), "a|b"), LookupStep::ReadStore);
    assert_eq!(lyrics_after_store(true), AfterStore::UseStored);
    assert_eq!(lyrics_after_store(false), AfterStore::FetchAndStore);
}

#[test]
fn toggles_flip_and_follow_resumes_the_scroll() {
    let mut s = fresh();
    assert!(step(&mut s, Event::ToggleLyricsFollow).is_empty());
    assert!(!s.lyrics_follow);
    assert_eq!(kinds(&step(&mut s, Event::ToggleLyricsFollow)), vec!["LyricsAutoscroll"]);
    assert_eq!(kinds(&step(&mut s, Event::ToggleAlbumGridView)), vec!["SaveConfig", "QueueListArt"]);
    assert!(s.album_grid_view);
    step(&mut s, Event::ToggleLyrics);
    step(&mut s, Event::ToggleArtistBio);
    step(&mut s, Event::LogToggleMpdOnly);
    step(&mut s, Event::ToggleRecentlyPlayedMode);
    assert!(!s.show_lyrics && s.show_artist_bio && !s.log_show_mpd_only && !s.recently_played_show_albums);
    assert_eq!(kinds(&step(&mut s, Event::SetDarkMode(false))), vec!["ApplyTheme(false)", "SaveConfig"]);
    assert!(!s.dark_mode);
}

#[test]
fn a_finished_art_fetch_starts_the_next() {
    let mut s = fresh();
    let a = step(&mut s, Event::AlbumArtFetched("A\u{1f}B".to_string(), ArtOutcome::Missing));
    assert_eq!(kinds(&a), vec!["StartArt([])"]);
    assert!(!s.art.has_art("A\u{1f}B"));
    let a = step(&mut s, Event::ClearRecentlyPlayed);
    assert_eq!(kinds(&a), vec!["ClearHistory(\"home\")"]);
}

fn snap_group(id: &str, clients: &[(&str, bool, u8)]) -> SnapGroup {
    SnapGroup {
        id: id.to_string(),
        name: id.to_string(),
        muted: false,
        stream_id: "default".to_string(),
        clients: clients
            .iter()
            .map(|(c, muted, volume)| SnapClient {
                id: c.to_string(),
                name: c.to_string(),
                connected: true,
                muted: *muted,
                volume: *volume,
                latency: 0,
            })
            .collect(),
    }
}

#[test]
fn snapcast_controls_show_at_once_and_are_sent_through_the_client() {
    let mut s = fresh();
    step(&mut s, Event::SnapcastStatusLoaded(vec![snap_group("g1", &[("c1", true, 40)])], vec!["default".to_string()]));
    // no client yet: the change is shown but nothing can be sent
    assert!(step(&mut s, Event::SnapcastSetVolume("c1".to_string(), 70)).is_empty());
    assert_eq!(s.snapcast.groups[0].clients[0].volume, 70);
    step(&mut s, Event::SnapcastClientBuilt("studio:1705".to_string()));
    assert_eq!(kinds(&step(&mut s, Event::SnapcastSetVolume("c1".to_string(), 55))), vec!["SnapSetVolume(\"c1\", 55, true)"]);
    assert_eq!(
        kinds(&step(&mut s, Event::SnapcastToggleClientMute("c1".to_string(), true))),
        vec!["SnapSetVolume(\"c1\", 55, false)"]
    );
    assert!(!s.snapcast.groups[0].clients[0].muted);
    assert_eq!(kinds(&step(&mut s, Event::SnapcastToggleGroupMute("g1".to_string(), false))), vec!["SnapSetGroupMute(\"g1\", true)"]);
    assert!(s.snapcast.groups[0].muted);
    assert_eq!(
        kinds(&step(&mut s, Event::SnapcastSetGroupStream("g1".to_string(), "radio".to_string()))),
        vec!["SnapSetGroupStream(\"g1\", \"radio\")"]
    );
    assert_eq!(s.snapcast.groups[0].stream_id, "radio");
    step(&mut s, Event::SnapcastUnreachable("refused".to_string()));
    assert_eq!(s.snapcast.error.as_deref(), Some("refused"));
    assert_eq!(s.snapcast.groups.len(), 1);
}

#[test]
fn only_a_valid_cache_size_is_saved() {
    let mut s = fresh();
    step(&mut s, Event::ArtCacheSizeChanged(" 750 ".to_string()));
    assert_eq!(s.settings.cache_size_input, " 750 ");
    assert_eq!(kinds(&step(&mut s, Event::SaveArtCacheSize)), vec!["SaveConfig", "SetArtCacheLimit(750)"]);
    assert_eq!(s.art_cache_mb, 750);
    assert_eq!(s.settings.cache_size_input, "750");
    step(&mut s, Event::ArtCacheSizeChanged("0".to_string()));
    assert!(step(&mut s, Event::SaveArtCacheSize).is_empty());
    assert_eq!(s.art_cache_mb, 750);
    assert_eq!(s.settings.cache_size_input, "750");
}

#[test]
fn the_tick_drops_expired_toasts_and_keeps_the_others_as_they_were() {
    let mut s = fresh();
    step(&mut s, Event::ErrorOccurred("err".to_string()));
    step(&mut s, Event::DatabaseUpdating);
    let err_shown = s.toasts.get(0).shown_at;
    // the error is 5 s old (lifetime 8), the note 5 s old (lifetime 4)
    step(&mut s, Event::Tick(vec![5, 5]));
    assert_eq!(s.toasts.len(), 1);
    assert_eq!(s.toasts.get(0).text, "err");
    assert_eq!(s.toasts.get(0).shown_at, err_shown);
    step(&mut s, Event::Tick(vec![8]));
    assert_eq!(s.toasts.len(), 0);
    // read from the clock: a toast just shown stays
    step(&mut s, Event::ErrorOccurred("now".to_string()));
    winrmpc::ui::app::state::tick(&mut s);
    assert_eq!(s.toasts.len(), 1);
}

#[test]
fn playing_a_stored_playlist_is_remembered_until_the_queue_changes() {
    let mut s = fresh();
    assert_eq!(kinds(&step(&mut s, Event::PlaylistPlay("mix".to_string()))), vec!["PlayPlaylist(\"mix\", 0)"]);
    assert_eq!(s.playing_from_playlist.as_deref(), Some("mix"));
    assert_eq!(winrmpc::ui::views::now_playing::playing_from_caption("mix"), "Playing from mix");
    step(&mut s, Event::QueueEdited);
    assert!(s.playing_from_playlist.is_none());
    assert_eq!(kinds(&step(&mut s, Event::PlaylistPlayAt("mix".to_string(), 4))), vec!["PlayPlaylist(\"mix\", 4)"]);
    assert_eq!(kinds(&step(&mut s, Event::PlaylistAppend("other".to_string()))), vec!["AppendPlaylist(\"other\")"]);
    assert!(s.playing_from_playlist.is_none());
    step(&mut s, Event::PlaylistPlay("mix".to_string()));
    assert_eq!(kinds(&step(&mut s, Event::QueueClear)), vec!["ClearQueue"]);
    assert!(s.playing_from_playlist.is_none());
    step(&mut s, Event::NavigateTo(View::PlaylistDetail("mix".to_string())));
    assert_eq!(kinds(&step(&mut s, Event::PlaylistDelete("mix".to_string()))), vec!["DeletePlaylist(\"mix\")"]);
    assert_eq!(s.nav.current(), &View::Playlists);
}

#[test]
fn the_play_history_keeps_30_days_and_100_plays_newest_first() {
    let mut s = fresh();
    let day = 86_400;
    let mut old = entry("old");
    old.played_at = 1_700_000_000 - 31 * day;
    let mut recent = entry("recent");
    recent.played_at = 1_700_000_000 - 30 * day;
    step(&mut s, Event::RecentlyPlayedLoaded(vec![recent.clone(), old]));
    let a = step(&mut s, Event::PlayRecorded(entry("new")));
    assert_eq!(kinds(&a), vec!["StoreHistory(\"home\")"]);
    assert_eq!(s.recently_played.len(), 2);
    assert_eq!(s.recently_played[0].title, "new");
    assert_eq!(s.recently_played[1], recent);
    for i in 0..120 {
        let mut e = entry(&format!("t{i}"));
        e.played_at = 1_700_000_000 + i;
        step(&mut s, Event::PlayRecorded(e));
    }
    assert_eq!(s.recently_played.len(), 100);
    assert_eq!(s.recently_played[0].title, "t119");
}

#[test]
fn snapcast_is_loaded_only_for_a_configured_server() {
    let (mut s, _) = initial_state(vec![], None, None, true, 1, false);
    assert!(enter_view(&mut s, &View::Snapcast).is_empty());
}

#[test]
fn the_add_server_form_adds_a_new_name_and_empties() {
    let mut s = fresh();
    step(&mut s, Event::ServerNameChanged(" lounge ".to_string()));
    step(&mut s, Event::HostChanged("10.0.0.9".to_string()));
    step(&mut s, Event::PortChanged("x".to_string()));
    assert_eq!(kinds(&step(&mut s, Event::AddServer)), vec!["SaveConfig"]);
    assert_eq!(s.servers.servers.len(), 3);
    assert_eq!(s.servers.servers[2].name, "lounge");
    assert_eq!(s.servers.servers[2].port, 6600);
    assert!(s.forms.add_name.is_empty() && s.forms.add_host.is_empty());
    step(&mut s, Event::ServerNameChanged("home".to_string()));
    step(&mut s, Event::HostChanged("h".to_string()));
    assert!(step(&mut s, Event::AddServer).is_empty());
    assert_eq!(s.servers.servers.len(), 3);
    assert_eq!(s.forms.add_name, "home");
}

#[test]
fn editing_the_server_in_use_reconnects_to_its_new_address() {
    let mut s = fresh();
    step(&mut s, Event::SnapcastClientBuilt("home.local:1705".to_string()));
    step(&mut s, Event::StartEditServer("studio".to_string()));
    assert_eq!(s.settings.editing.as_deref(), Some("studio"));
    assert_eq!(s.forms.edit_host, "studio.local");
    assert_eq!(s.forms.edit_port, "6600");
    assert_eq!(s.forms.edit_snap_port, "");
    step(&mut s, Event::EditServerSnapPort("1780".to_string()));
    // another server: saved, and the Snapcast client is rebuilt next time
    assert_eq!(kinds(&step(&mut s, Event::ConfirmEditServer)), vec!["SaveConfig"]);
    assert_eq!(s.servers.servers[1].snapcast_port, Some(1780));
    assert!(s.snapcast_client.is_none() && s.settings.editing.is_none());
    step(&mut s, Event::StartEditServer("home".to_string()));
    step(&mut s, Event::EditServerHost(" 10.1.1.1 ".to_string()));
    assert_eq!(
        kinds(&step(&mut s, Event::ConfirmEditServer)),
        vec!["SaveConfig", "LoadHistory(\"home\")", "Connect"]
    );
    assert_eq!(s.servers.servers[0].host, "10.1.1.1");
    assert_eq!(s.servers.active, "home");
    // a blank host saves nothing and closes the form
    step(&mut s, Event::StartEditServer("home".to_string()));
    step(&mut s, Event::EditServerHost("  ".to_string()));
    assert!(step(&mut s, Event::ConfirmEditServer).is_empty());
    assert!(s.settings.editing.is_none());
    assert!(step(&mut s, Event::StartEditServer("nobody".to_string())).is_empty());
    assert!(s.settings.editing.is_none());
}

#[test]
fn a_search_asks_for_the_query_typed() {
    let mut s = fresh();
    step(&mut s, Event::SearchQueryChanged("bach".to_string()));
    assert_eq!(kinds(&step(&mut s, Event::SearchSubmit)), vec!["Search(\"bach\")"]);
}
