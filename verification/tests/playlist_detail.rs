use winrmpc::ui::message::Message;
use winrmpc::ui::views::playlist_detail::{
    missing_caption, missing_note, playlist_totals, row_actions, row_is_current, row_number_label, track_summary,
    PlaylistEntry,
};

#[test]
fn a_playlist_with_nothing_missing_reads_as_before() {
    assert_eq!(track_summary(12, 0, 48), "12 tracks  |  48 min");
    assert_eq!(missing_note(0), None);
}

#[test]
fn the_track_count_excludes_missing_entries() {
    assert_eq!(track_summary(417, 5, 1500), "412 tracks  |  5 missing  |  1500 min");
}

#[test]
fn the_note_agrees_in_number() {
    assert!(missing_note(1).unwrap().starts_with("One file in this playlist is "));
    assert!(missing_note(5).unwrap().starts_with("5 files in this playlist are "));
}

#[test]
fn the_caption_names_the_folder_the_file_was_in() {
    assert_eq!(missing_caption("Peter Gabriel/Us/04 - Steam.flac"), "Missing file · Peter Gabriel/Us");
    assert_eq!(missing_caption("loose.flac"), "Missing file");
    assert_eq!(missing_caption("/loose.flac"), "Missing file");
}

#[test]
fn the_notes_read_in_full() {
    assert_eq!(
        missing_note(1).unwrap(),
        "One file in this playlist is no longer in the library, so Play skips it. Marked below with the folder it was in."
    );
    assert_eq!(
        missing_note(2).unwrap(),
        "2 files in this playlist are no longer in the library, so Play skips them. Marked below with the folder each was in."
    );
}

fn entry(file: &str, pos: Option<u32>, secs: Option<u64>, missing: bool) -> PlaylistEntry {
    PlaylistEntry { file: file.to_string(), pos, duration_secs: secs, missing }
}

#[test]
fn totals_count_missing_entries_and_known_lengths() {
    let e = vec![entry("a", Some(0), Some(100), false), entry("b", Some(1), None, true), entry("c", Some(2), Some(20), false)];
    assert_eq!(playlist_totals(&e), (1, 120));
}

#[test]
fn a_missing_row_can_only_move_and_be_removed() {
    let e = entry("gone.flac", Some(4), None, true);
    let a = row_actions("Mix", &e, 4, 10);
    assert!(a.play_now.is_none() && a.add_to_queue.is_none() && a.play_next.is_none() && a.add_to_playlist.is_none());
    assert_eq!(a.move_up, Some(Message::PlaylistMoveSongUp("Mix".to_string(), 4)));
    assert_eq!(a.move_down, Some(Message::PlaylistMoveSongDown("Mix".to_string(), 4)));
    assert_eq!(a.remove, Message::PlaylistRemoveSong("Mix".to_string(), 4));
}

#[test]
fn the_ends_of_a_playlist_cannot_move_past_them() {
    let first = row_actions("Mix", &entry("a", None, None, false), 0, 2);
    assert!(first.move_up.is_none());
    assert_eq!(first.play_now, Some(Message::PlaylistPlayAt("Mix".to_string(), 0)));
    assert_eq!(first.add_to_playlist, Some(Message::OpenAddToPlaylist(vec!["a".to_string()])));
    let last = row_actions("Mix", &entry("b", Some(1), None, false), 1, 2);
    assert!(last.move_down.is_none());
    assert_eq!(last.play_next, Some(Message::QueueAddNext("b".to_string())));
}

#[test]
fn a_missing_row_never_shows_as_playing() {
    assert!(row_is_current(&entry("a", None, None, false), Some("a")));
    assert!(!row_is_current(&entry("a", None, None, true), Some("a")));
    assert!(!row_is_current(&entry("a", None, None, false), None));
    assert_eq!(row_number_label(0), "1");
    assert_eq!(row_number_label(41), "42");
}
