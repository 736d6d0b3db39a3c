use winrmpc::model::{AudioFormat, RecentAlbum, SnapClient, SnapGroup};
use winrmpc::ui::message::{Message, View};
use winrmpc::ui::theme::colors::AppColors;
use winrmpc::ui::views::browser::{accepts_listing, breadcrumbs, shows_directory_actions};
use winrmpc::ui::views::lists::{
    add_to_playlist_title, artist_opt, bio_toggle_label, cd_note, cd_track_label, count_caption, disc_caption,
    history_mode_label, output_labels, partition_row, search_status, section_heading,
};
use winrmpc::ui::views::log::{copy_text, displayed, empty_note, level_color, view_line, LogEntry};
use winrmpc::ui::views::now_playing::{
    autoscroll_wanted, follow_toggle_parts, format_meta_line, format_tech_line, lyric_line_style, lyrics_pane,
    lyrics_toggle_label, shows_follow_toggle, truncate, visible_recents, LyricsPane, LyricsState,
};
use winrmpc::ui::widgets::icon::{HISTORY, LIST};
use winrmpc::ui::views::queue::queue_row;
use winrmpc::ui::views::server_stats::{format_hms, format_timestamp, timestamp_text, update_action, update_label};
use winrmpc::ui::views::snapcast::{
    client_mute_label, group_mute_label, inactive_count, inactive_toggle_label, latency_label, visible_clients,
    visible_groups, volume_label,
};
use winrmpc::model::AlbumGroup;

fn client(id: &str, connected: bool) -> SnapClient {
    SnapClient { id: id.to_string(), name: id.to_string(), connected, muted: false, volume: 50, latency: 0 }
}

fn group(id: &str, clients: Vec<SnapClient>) -> SnapGroup {
    SnapGroup { id: id.to_string(), name: id.to_string(), muted: false, stream_id: "default".to_string(), clients }
}

#[test]
fn groups_with_only_inactive_clients_are_hidden_with_them() {
    let groups = vec![
        group("g1", vec![client("a", true), client("b", false)]),
        group("g2", vec![client("c", false)]),
    ];
    let shown: Vec<&str> = visible_groups(&groups, false).iter().map(|g| g.id.as_str()).collect();
    assert_eq!(shown, vec!["g1"]);
    assert_eq!(visible_groups(&groups, true).len(), 2);
    let clients: Vec<&str> = visible_clients(&groups[0], false).iter().map(|c| c.id.as_str()).collect();
    assert_eq!(clients, vec!["a"]);
    assert_eq!(inactive_count(&groups), 2);
}

#[test]
fn the_inactive_toggle_names_the_count() {
    assert_eq!(inactive_toggle_label(0, false), None);
    assert_eq!(inactive_toggle_label(3, false), Some("Show 3 inactive".to_string()));
    assert_eq!(inactive_toggle_label(3, true), Some("Hide 3 inactive".to_string()));
}

#[test]
fn snapcast_client_captions() {
    assert_eq!(latency_label(0), "");
    assert_eq!(latency_label(20), "+20ms");
    assert_eq!(latency_label(-5), "+-5ms");
    assert_eq!(volume_label(75), "75%");
    assert_eq!(group_mute_label(true), "Unmute Group");
    assert_eq!(group_mute_label(false), "Mute Group");
    assert_eq!(client_mute_label(true), "Unmute");
}

#[test]
fn the_tech_line_leaves_out_what_is_unknown() {
    let f = AudioFormat { sample_rate: 44100, bits: 16, channels: 2 };
    assert_eq!(format_tech_line("FLAC", Some(f), Some(905)), "FLAC  ·  44100 Hz  ·  16 bit  ·  2 ch  ·  905 kbps");
    assert_eq!(format_tech_line("", None, Some(320)), "320 kbps");
    assert_eq!(format_tech_line("", None, None), "");
}

#[test]
fn the_meta_line_shows_the_year_of_a_full_date() {
    assert_eq!(format_meta_line(Some("Rock"), Some("1999-05-01")), "Rock  ·  1999");
    assert_eq!(format_meta_line(None, Some("2001")), "2001");
    assert_eq!(format_meta_line(Some("Jazz"), None), "Jazz");
}

#[test]
fn truncation_marks_a_cut() {
    assert_eq!(truncate("Wildhoney", 4), "Wild…");
    assert_eq!(truncate("Wild", 4), "Wild");
    assert_eq!(truncate("Éire", 2), "Éi…");
}

#[test]
fn the_recent_strip_skips_the_playing_album_and_shows_five() {
    let recents: Vec<RecentAlbum> = (0..8)
        .map(|i| RecentAlbum { artist: "A".to_string(), album: format!("al{i}") })
        .collect();
    let current = format!("A\u{1f}al1");
    let shown: Vec<&str> = visible_recents(&recents, &current).iter().map(|r| r.album.as_str()).collect();
    assert_eq!(shown, vec!["al0", "al2", "al3", "al4", "al5"]);
}

#[test]
fn the_lyrics_pane_prefers_synced_lines() {
    assert_eq!(lyrics_pane(LyricsState::Loading), LyricsPane::Loading);
    assert_eq!(lyrics_pane(LyricsState::NotFound), LyricsPane::NoLyrics);
    let found = |instrumental, synced, plain| LyricsState::Found { instrumental, synced, plain };
    assert_eq!(lyrics_pane(found(true, true, true)), LyricsPane::Instrumental);
    assert_eq!(lyrics_pane(found(false, true, true)), LyricsPane::Synced);
    assert_eq!(lyrics_pane(found(false, false, true)), LyricsPane::Plain);
    assert_eq!(lyrics_pane(found(false, false, false)), LyricsPane::NoLyrics);
    assert!(shows_follow_toggle(found(false, true, false)));
    assert!(!shows_follow_toggle(found(true, true, false)));
    let colors = AppColors::new();
    assert_eq!(lyric_line_style(&colors, true), (colors.accent(), 17));
    assert_eq!(lyric_line_style(&colors, false), (colors.text_muted(), 15));
    assert!(autoscroll_wanted(true, true, &View::NowPlaying));
    assert!(!autoscroll_wanted(true, true, &View::Queue));
    assert!(!autoscroll_wanted(true, false, &View::NowPlaying));
}

#[test]
fn spans_read_in_days_hours_and_minutes() {
    assert_eq!(format_hms(59), "0m");
    assert_eq!(format_hms(3 * 60), "3m");
    assert_eq!(format_hms(2 * 3600 + 5 * 60), "2h 5m");
    assert_eq!(format_hms(86_400 + 60), "1d 0h 1m");
    assert_eq!(format_hms(3 * 86_400 + 4 * 3600 + 59 * 60 + 59), "3d 4h 59m");
}

#[test]
fn an_unknown_timestamp_says_so() {
    assert_eq!(timestamp_text(None), "Unknown");
    assert_eq!(timestamp_text(Some("2024-01-02 03:04".to_string())), "2024-01-02 03:04");
    let t = format_timestamp(1_700_000_000);
    assert_eq!(t.len(), 16, "{t}");
    assert!(t.starts_with("2023-11-1"), "{t}");
    assert_eq!(format_timestamp(i64::MAX as u64), "Unknown");
}

#[test]
fn a_dated_timestamp_is_written_to_the_minute() {
    // Near the epoch (a count read back as -1), in the present, and far ahead.
    for secs in [u64::MAX, 0, 1_700_000_000, 253_402_300_800 + 86_400 * 180] {
        let t = format_timestamp(secs);
        assert_ne!(t, "Unknown", "{secs}");
        let b: Vec<char> = t.chars().collect();
        let n = b.len();
        assert!(n >= 16, "{t}");
        assert_eq!(b[n - 12], '-', "{t}");
        assert_eq!(b[n - 9], '-', "{t}");
        assert_eq!(b[n - 6], ' ', "{t}");
        assert_eq!(b[n - 3], ':', "{t}");
        let field = |i: usize| -> u32 { b[i].to_digit(10).unwrap() * 10 + b[i + 1].to_digit(10).unwrap() };
        assert!((1..=12).contains(&field(n - 11)), "{t}");
        assert!((1..=31).contains(&field(n - 8)), "{t}");
        assert!(field(n - 5) <= 23, "{t}");
        assert!(field(n - 2) <= 59, "{t}");
    }
    assert!(format_timestamp(253_402_300_800 + 86_400 * 180).starts_with("+10000-"));
}

#[test]
fn the_update_button_is_disabled_while_updating() {
    assert_eq!(update_label(true), "Updating...");
    assert_eq!(update_label(false), "Update Database");
    assert_eq!(update_action(true), None);
    assert_eq!(update_action(false), Some(Message::UpdateDatabase));
}

fn log(level: &str, target: &str, msg: &str) -> LogEntry {
    LogEntry { timestamp: "12:00:00".to_string(), level: level.to_string(), target: target.to_string(), message: msg.to_string() }
}

#[test]
fn the_log_lists_and_copies_mpd_entries() {
    let entries = vec![
        log("INFO", "winrmpc::mpd::client", "connected"),
        log("WARN", "winrmpc::ui", "slow"),
        log("ERROR", "mpd", "boom"),
    ];
    assert_eq!(displayed(&entries, true).len(), 2);
    assert_eq!(displayed(&entries, false).len(), 3);
    assert_eq!(view_line(&entries[0]), "12:00:00 INFO  mpd::client  connected");
    assert_eq!(
        copy_text(&entries, true),
        "[12:00:00] INFO  mpd::client  connected\n[12:00:00] ERROR mpd  boom"
    );
    assert_eq!(empty_note(true, true), "No MPD log entries yet.");
    assert_eq!(empty_note(true, false), "No log entries yet.");
    let colors = AppColors::new();
    assert_eq!(level_color(&colors, "ERROR", false), colors.error());
    assert_eq!(level_color(&colors, "INFO", true), colors.warning());
    assert_eq!(level_color(&colors, "DEBUG", false), colors.text_muted());
}

#[test]
fn breadcrumbs_target_each_prefix_of_the_path() {
    assert_eq!(breadcrumbs(""), vec![("Root".to_string(), String::new())]);
    assert_eq!(
        breadcrumbs("Music/Rock/Tiamat"),
        vec![
            ("Root".to_string(), String::new()),
            ("Music".to_string(), "Music".to_string()),
            ("Rock".to_string(), "Music/Rock".to_string()),
            ("Tiamat".to_string(), "Music/Rock/Tiamat".to_string()),
        ]
    );
    assert!(shows_directory_actions(true, "Music"));
    assert!(!shows_directory_actions(true, ""));
    assert!(!shows_directory_actions(false, "Music"));
    assert!(accepts_listing("a/b", "a/b"));
    assert!(!accepts_listing("a", "a/b"));
}

#[test]
fn list_captions() {
    assert_eq!(count_caption(12, "tracks"), "12 tracks");
    assert_eq!(section_heading("Albums", 3), "Albums (3)");
    assert_eq!(search_status(true, 1, 2, 3), "Type to search");
    assert_eq!(search_status(false, 10, 2, 1), "10 songs · 2 albums · 1 artists");
    assert_eq!(disc_caption(1), None);
    assert_eq!(disc_caption(2), Some("2 discs".to_string()));
    assert_eq!(add_to_playlist_title(1), "Add to Playlist");
    assert_eq!(add_to_playlist_title(3), "Add 3 Songs");
    assert_eq!(cd_track_label(0), "Track 1");
    assert_eq!(cd_note(true, 3), Some("Probing disc…"));
    assert_eq!(cd_note(false, 0), Some("No tracks loaded. Insert a disc and click Load Tracks."));
    assert_eq!(cd_note(false, 2), None);
    assert_eq!(history_mode_label(true), "View: Albums");
    assert_eq!(output_labels(true), ("Enabled", "Disable"));
    assert_eq!(bio_toggle_label(false), "Show info");
    assert_eq!(partition_row(true), ("> ", false));
    assert_eq!(partition_row(false), ("  ", true));
}

#[test]
fn an_ungrouped_album_opens_without_an_artist() {
    let g = AlbumGroup { artist: String::new(), base: "X".to_string(), variants: vec!["X".to_string()] };
    assert_eq!(artist_opt(&g), None);
    let g = AlbumGroup { artist: "Tiamat".to_string(), base: "X".to_string(), variants: vec![] };
    assert_eq!(artist_opt(&g), Some("Tiamat".to_string()));
}

#[test]
fn queue_rows_match_by_position_and_stay_inside_the_queue() {
    let first = queue_row("a.flac", Some(0), Some(11), 0, 3, Some(0));
    assert!(first.is_current);
    assert_eq!(first.play, Message::QueuePlay(0));
    assert_eq!(first.move_up, None);
    assert_eq!(first.move_down, Some(Message::QueueMoveDown(0)));
    assert_eq!(first.remove, Some(Message::QueueRemove(11)));
    assert_eq!(first.add_to_playlist, Message::OpenAddToPlaylist(vec!["a.flac".to_string()]));
    let last = queue_row("a.flac", Some(2), None, 2, 3, Some(0));
    assert!(!last.is_current, "the same file elsewhere in the queue is not the playing entry");
    assert_eq!(last.move_up, Some(Message::QueueMoveUp(2)));
    assert_eq!(last.move_down, None);
    assert_eq!(last.remove, None);
}

#[test]
fn the_lyrics_toggles_say_what_they_do() {
    assert_eq!(follow_toggle_parts(true), (HISTORY, "Sync", "Following the song — click to scroll freely"));
    assert_eq!(follow_toggle_parts(false), (LIST, "Scroll", "Free scrolling — click to follow the song"));
    assert_eq!(lyrics_toggle_label(true), "Hide lyrics");
    assert_eq!(lyrics_toggle_label(false), "Show lyrics");
}

#[test]
fn a_timestamp_names_its_time_moved_by_the_zone_offset() {
    for secs in [0i64, 951_825_600, 1_700_000_000] {
        let t = format_timestamp(secs as u64);
        let found = (-1440i64..=1440).any(|m| {
            chrono::DateTime::from_timestamp(secs + m * 60, 0).unwrap().format("%Y-%m-%d %H:%M").to_string() == t
        });
        assert!(found, "{secs}: {t}");
    }
}
