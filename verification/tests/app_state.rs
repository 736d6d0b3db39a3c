use winrmpc::model::{art_key_for, AlbumGroup, ConsumeState, SingleState, SnapClient, SnapGroup};
use winrmpc::ui::app::art::{album_art_targets, ArtFetch, ArtQueue, ArtTarget, ART_FETCH_CONCURRENCY};
use winrmpc::ui::app::nav::Navigator;
use winrmpc::ui::app::playback::{
    add_next_plan, cd_disc_uri, cd_track_uri, clear_caches_press, counts_as_played, jump_target, move_after_add,
    move_down_target, move_up_target, next_consume_mode, next_single_mode, partition_or_default, play_command,
    poll_plan, starts_new_album, tick_work, track_changed, up_next, AddNextPlan, PlayCommand, PlayState,
};
use winrmpc::ui::app::playlists::{
    add_to_new_playlist, confirm_rename, save_queue, AddToNew, RenamePlaylist, SaveQueue, INVALID_NAME,
};
use winrmpc::ui::app::settings::{art_cache_size_from, radio_station_from, SettingsForm};
use winrmpc::ui::app::snapcast::{
    needs_new_client, set_client_volume, set_group_stream, toggle_client_mute, toggle_group_mute, SnapcastPanel,
};
use winrmpc::ui::message::{ArtOutcome, View};

fn target(artist: &str, album: &str) -> ArtTarget {
    ArtTarget { artist: artist.to_string(), base: album.to_string(), variant: album.to_string() }
}

fn local_keys(fetches: &[ArtFetch]) -> Vec<String> {
    fetches
        .iter()
        .filter_map(|f| match f {
            ArtFetch::Local(t) => Some(art_key_for(&t.artist, &t.base)),
            ArtFetch::Remote(_) => None,
        })
        .collect()
}

#[test]
fn enqueueing_starts_at_most_the_concurrency_limit() {
    let mut q = ArtQueue::new();
    let started = q.enqueue((0..5).map(|i| target("A", &format!("al{i}"))).collect());
    assert_eq!(started.len(), ART_FETCH_CONCURRENCY);
    assert_eq!(local_keys(&started), vec![art_key_for("A", "al0"), art_key_for("A", "al1"), art_key_for("A", "al2")]);
}

#[test]
fn a_local_miss_waits_for_the_local_queue_before_musicbrainz() {
    let mut q = ArtQueue::new();
    q.enqueue((0..5).map(|i| target("A", &format!("al{i}"))).collect());
    let next = q.fetched(art_key_for("A", "al0"), &ArtOutcome::MpdMiss);
    assert_eq!(local_keys(&next), vec![art_key_for("A", "al3")]);
    assert!(next.iter().all(|f| matches!(f, ArtFetch::Local(_))), "al4 is still queued locally");
    let next = q.fetched(art_key_for("A", "al1"), &ArtOutcome::Loaded(vec![1, 2, 3]));
    match next.as_slice() {
        [ArtFetch::Local(t), ArtFetch::Remote(k)] => {
            assert_eq!(t.base, "al4");
            assert_eq!(k, &art_key_for("A", "al0"));
        }
        other => panic!("expected the last local fetch and one lookup, got {other:?}"),
    }
    assert!(q.fetched(art_key_for("A", "al2"), &ArtOutcome::Missing).is_empty());
    assert!(q.has_art(&art_key_for("A", "al1")));
    assert!(!q.has_art(&art_key_for("A", "al2")));
    assert!(q.enqueue(vec![target("A", "al2")]).is_empty(), "a known miss is not queued again");
}

#[test]
fn albums_with_known_art_are_not_queued_again() {
    let mut q = ArtQueue::new();
    q.mark_loaded(art_key_for("A", "x"));
    assert!(q.enqueue(vec![target("A", "x")]).is_empty());
    q.clear_all();
    assert!(!q.has_art(&art_key_for("A", "x")));
    assert_eq!(q.enqueue(vec![target("A", "x")]).len(), 1);
}

#[test]
fn art_targets_use_the_first_disc_variant() {
    let groups = vec![
        AlbumGroup { artist: "A".to_string(), base: "B".to_string(), variants: vec!["B (Disc 1)".to_string(), "B (Disc 2)".to_string()] },
        AlbumGroup { artist: "C".to_string(), base: "D".to_string(), variants: vec![] },
    ];
    let t = album_art_targets(&groups);
    assert_eq!(t[0].variant, "B (Disc 1)");
    assert_eq!(t[1].variant, "D");
    assert_eq!(art_key_for("A", "B"), "A\u{1f}B");
}

#[test]
fn back_undoes_opening_a_view() {
    let mut n = Navigator::new();
    assert_eq!(n.current(), &View::NowPlaying);
    n.navigate_to(View::Albums);
    n.navigate_to(View::PlaylistDetail("Mix".to_string()));
    assert_eq!(n.depth(), 2);
    n.leave_deleted_playlist("Mix");
    assert_eq!(n.current(), &View::Playlists);
    n.go_back();
    assert_eq!(n.current(), &View::Albums);
    n.go_back();
    n.go_back();
    assert_eq!(n.current(), &View::NowPlaying);
    assert_eq!(n.depth(), 0);
}

fn client(id: &str, muted: bool, volume: u8) -> SnapClient {
    SnapClient { id: id.to_string(), name: id.to_string(), connected: true, muted, volume, latency: 0 }
}

fn groups() -> Vec<SnapGroup> {
    vec![
        SnapGroup { id: "g1".to_string(), name: "g1".to_string(), muted: false, stream_id: "s1".to_string(), clients: vec![client("a", true, 10)] },
        SnapGroup { id: "g2".to_string(), name: "g2".to_string(), muted: true, stream_id: "s1".to_string(), clients: vec![client("b", false, 20), client("a", false, 30)] },
    ]
}

#[test]
fn snapcast_controls_change_every_listing_of_the_id() {
    let mut g = groups();
    let muted = set_client_volume(&mut g, "a", 77);
    assert!(!muted, "the last listing of the client decides the muted flag sent");
    assert_eq!(g[0].clients[0].volume, 77);
    assert_eq!(g[1].clients[1].volume, 77);
    assert_eq!(g[1].clients[0].volume, 20);
    let (now_muted, percent) = toggle_client_mute(&mut g, "b", false);
    assert!(now_muted);
    assert_eq!(percent, 20);
    assert!(g[1].clients[0].muted);
    assert_eq!(toggle_client_mute(&mut g, "nobody", true), (false, 0));
    assert!(!toggle_group_mute(&mut g, "g2", true));
    assert!(!g[1].muted);
    set_group_stream(&mut g, "g1", "s2");
    assert_eq!(g[0].stream_id, "s2");
    assert_eq!(g[1].stream_id, "s1");
    assert!(!set_client_volume(&mut g, "nobody", 5));
}

#[test]
fn play_resumes_a_paused_track() {
    assert_eq!(play_command(PlayState::Pause), PlayCommand::Resume);
    assert_eq!(play_command(PlayState::Stop), PlayCommand::Play);
    assert_eq!(play_command(PlayState::Play), PlayCommand::Play);
}

#[test]
fn single_and_consume_cycle_off_on_oneshot() {
    assert_eq!(next_single_mode(SingleState::Off), "1");
    assert_eq!(next_single_mode(SingleState::On), "oneshot");
    assert_eq!(next_single_mode(SingleState::Oneshot), "0");
    assert_eq!(next_consume_mode(ConsumeState::Off), "1");
    assert_eq!(next_consume_mode(ConsumeState::Oneshot), "0");
}

#[test]
fn queue_moves_stay_inside_the_queue() {
    assert_eq!(move_up_target(0), None);
    assert_eq!(move_up_target(3), Some(2));
    assert_eq!(move_down_target(3), 4);
}

#[test]
fn play_next_goes_right_after_the_current_song() {
    assert_eq!(add_next_plan(Some(4), false), AddNextPlan::MoveTo(5));
    assert_eq!(add_next_plan(None, true), AddNextPlan::PlayIt);
    assert_eq!(add_next_plan(None, false), AddNextPlan::Leave);
    assert_eq!(move_after_add(10, 5), Some((9, 5)));
    assert_eq!(move_after_add(6, 5), None);
    assert_eq!(move_after_add(0, 5), None);
    assert_eq!(jump_target(Some(3), 10), Some((3, 9)));
    assert_eq!(jump_target(Some(0), 1), None);
    assert_eq!(jump_target(None, 10), None);
}

#[test]
fn cd_tracks_are_not_history() {
    assert!(!counts_as_played("cdda:///3"));
    assert!(counts_as_played("music/a.flac"));
    assert!(starts_new_album(Some("A"), "B", "x.flac"));
    assert!(starts_new_album(None, "B", "x.flac"));
    assert!(!starts_new_album(Some("B"), "B", "x.flac"));
    assert!(!starts_new_album(Some("A"), "Unknown Album", "x.flac"));
    assert!(!starts_new_album(Some("A"), "B", "cdda:///1"));
    assert!(track_changed(Some("a"), Some("b")));
    assert!(!track_changed(Some("a"), Some("a")));
    assert!(track_changed(None, Some("a")));
    assert!(!track_changed(None, None));
}

#[test]
fn cd_uris_name_the_drive() {
    assert_eq!(cd_disc_uri(None), "cdda:///");
    assert_eq!(cd_disc_uri(Some("/dev/sr0")), "cdda:///dev/sr0");
    assert_eq!(cd_track_uri(None, 3), "cdda:///3");
    assert_eq!(cd_track_uri(Some("/dev/sr0"), 12), "cdda:///dev/sr0/12");
    assert_eq!(partition_or_default(None), "default");
    assert_eq!(partition_or_default(Some("kitchen")), "kitchen");
}

#[test]
fn the_timers_follow_the_connection_and_the_view() {
    let p = poll_plan(true, &View::Snapcast);
    assert_eq!((p.tick_ms, p.status_ticks, p.snapcast_poll), (500, true, true));
    let p = poll_plan(false, &View::Queue);
    assert_eq!((p.tick_ms, p.status_ticks, p.snapcast_poll), (3000, false, false));
    assert_eq!(tick_work(true, &View::ServerStats), (true, true));
    assert_eq!(tick_work(false, &View::ServerStats), (false, false));
    assert_eq!(clear_caches_press(false), (true, false));
    assert_eq!(clear_caches_press(true), (false, true));
}

#[test]
fn settings_fields_save_only_valid_values() {
    assert_eq!(art_cache_size_from(" 250 "), Some(250));
    assert_eq!(art_cache_size_from("0"), None);
    assert_eq!(art_cache_size_from("lots"), None);
    assert_eq!(art_cache_size_from("+7"), Some(7));
    assert_eq!(radio_station_from(" FIP ", " http://x "), Some(("FIP".to_string(), "http://x".to_string())));
    assert_eq!(radio_station_from("FIP", "   "), None);
    let mut form = SettingsForm {
        confirm_clear_caches: true,
        editing: Some("a".to_string()),
        renaming: Some("b".to_string()),
        cache_size_input: "x".to_string(),
    };
    form.on_enter(500);
    assert!(!form.confirm_clear_caches && form.editing.is_none() && form.renaming.is_none());
    assert_eq!(form.cache_size_input, "500");
}

#[test]
fn playlist_forms_act_only_on_valid_names() {
    assert_eq!(save_queue(Some("Mix".to_string()), false), SaveQueue::Save("Mix".to_string()));
    assert_eq!(save_queue(Some("Mix".to_string()), true), SaveQueue::Nothing);
    assert_eq!(save_queue(None, false), SaveQueue::InvalidName);
    assert_eq!(confirm_rename(None, Some("B".to_string())), RenamePlaylist::Nothing);
    assert_eq!(confirm_rename(Some("A".to_string()), Some("A".to_string())), RenamePlaylist::Nothing);
    assert_eq!(
        confirm_rename(Some("A".to_string()), Some("B".to_string())),
        RenamePlaylist::Rename("A".to_string(), "B".to_string())
    );
    assert_eq!(confirm_rename(Some("A".to_string()), None), RenamePlaylist::InvalidName);
    assert_eq!(
        add_to_new_playlist(Some("New".to_string()), Some(vec!["a".to_string()])),
        AddToNew::Add("New".to_string(), vec!["a".to_string()])
    );
    assert_eq!(add_to_new_playlist(Some("New".to_string()), None), AddToNew::Nothing);
    assert_eq!(add_to_new_playlist(None, Some(vec![])), AddToNew::InvalidName);
    assert!(INVALID_NAME.contains("slashes"));
}

#[test]
fn the_snapcast_panel_keeps_what_it_showed_when_the_server_is_unreachable() {
    let mut p = SnapcastPanel::new();
    assert!(!p.show_inactive);
    p.status_loaded(groups(), vec!["s1".to_string()]);
    p.unreachable("refused".to_string());
    assert_eq!(p.groups.len(), 2);
    assert_eq!(p.error.as_deref(), Some("refused"));
    p.status_loaded(groups(), vec![]);
    assert_eq!(p.error, None);
    p.toggle_show_inactive();
    assert!(p.show_inactive);
    p.reset();
    assert!(p.groups.is_empty() && p.streams.is_empty() && p.show_inactive);
    assert!(needs_new_client(None, "h:1705"));
    assert!(needs_new_client(Some("h:1705"), "h:1706"));
    assert!(!needs_new_client(Some("h:1705"), "h:1705"));
}

#[test]
fn up_next_is_found_by_queue_position() {
    let positions = vec![Some(0), None, Some(2), Some(2)];
    assert_eq!(up_next(&positions, Some(2)), Some(2));
    assert_eq!(up_next(&positions, Some(7)), None);
    assert_eq!(up_next(&positions, None), None);
}

#[test]
fn the_cache_size_shown_on_entering_settings_saves_back_unchanged() {
    let mut form = SettingsForm {
        confirm_clear_caches: false,
        editing: None,
        renaming: None,
        cache_size_input: String::new(),
    };
    form.on_enter(750);
    assert_eq!(art_cache_size_from(&form.cache_size_input), Some(750));
}
