use std::collections::HashMap;
use winrmpc::model::{ConsumeState, SingleState};
use winrmpc::ui::message::Message;
use winrmpc::ui::theme::colors::{set_dark_mode, AppColors};
use winrmpc::ui::widgets::album_grid::layout_toggle;
use winrmpc::ui::widgets::icon::{all_glyphs, GRID, LIST, PLAY, SIZE};
use winrmpc::ui::widgets::sidebar::{nav_colors, shows_server_picker, status_color, status_text};
use winrmpc::ui::widgets::link::{
    album_link_message, album_message, artist_link_message, danger_btn_colors, icon_btn_colors, is_real_name,
    link_text_color, ButtonStatus, UNKNOWN_ALBUM, UNKNOWN_ARTIST,
};
use winrmpc::ui::widgets::player_bar::{
    consume_active, consume_label, crossfade_down, crossfade_label, crossfade_up, format_time, mode_colors,
    play_pause_message, replay_gain_modes, repeat_shows_one, single_active, single_label, transport_colors,
    volume_caption, LINE_HEIGHT_TENTHS, SONG_INFO_WIDTH, TRANSPORT_H, TRANSPORT_ICON, TRANSPORT_MIN_SLACK_TENTHS,
    TRANSPORT_PAD_Y,
};
use winrmpc::ui::widgets::song_row::{
    action_group_width, is_current_pos, is_current_uri, marker_glyph, row_bg, title_color, ACTION_BTN_WIDTH,
    ACTION_SPACING,
};

// --- song rows ---

#[test]
fn uri_match_marks_only_the_playing_track() {
    let current = Some("music/a.flac");
    assert!(is_current_uri("music/a.flac", current));
    assert!(!is_current_uri("music/b.flac", current));
}

#[test]
fn nothing_is_current_when_nothing_is_playing() {
    assert!(!is_current_uri("music/a.flac", None));
    assert!(!is_current_pos(0, None));
}

#[test]
fn a_playlist_row_at_the_playing_queue_position_does_not_match_by_position() {
    let playing_queue_pos = 3u32;
    let playing_file = "music/actually-playing.flac";
    let row_pos = 3u32;
    let row_file = "music/something-else.flac";
    assert!(is_current_pos(row_pos, Some(playing_queue_pos)));
    assert!(!is_current_uri(row_file, Some(playing_file)));
}

#[test]
fn duplicate_uris_in_one_listing_both_match() {
    let current = Some("music/a.flac");
    assert!(is_current_uri("music/a.flac", current));
    assert!(is_current_uri("music/a.flac", current));
}

#[test]
fn queue_positions_distinguish_the_same_file_twice() {
    assert!(is_current_pos(2, Some(2)));
    assert!(!is_current_pos(7, Some(2)));
}

#[test]
fn stream_and_cd_uris_behave_like_any_other() {
    assert!(is_current_uri("http://stream.example/live", Some("http://stream.example/live")));
    assert!(is_current_uri("cdda:///2", Some("cdda:///2")));
    assert!(!is_current_uri("cdda:///2", Some("cdda:///3")));
}

#[test]
fn playing_row_overrides_zebra_striping_in_both_parities() {
    let colors = AppColors::new();
    assert_eq!(row_bg(&colors, 0, true), colors.row_playing());
    assert_eq!(row_bg(&colors, 1, true), colors.row_playing());
    assert_eq!(row_bg(&colors, 0, false), colors.row_even());
    assert_eq!(row_bg(&colors, 1, false), colors.row_odd());
}

#[test]
fn the_playing_row_colour_is_distinct_from_both_stripes() {
    let colors = AppColors::new();
    assert_ne!(colors.row_playing(), colors.row_even());
    assert_ne!(colors.row_playing(), colors.row_odd());
    assert_ne!(colors.row_playing(), colors.bg_hover());
}

#[test]
fn the_action_group_width_matches_its_buttons() {
    assert_eq!(action_group_width(4), 4 * ACTION_BTN_WIDTH + 3 * ACTION_SPACING);
    assert_eq!(action_group_width(1), ACTION_BTN_WIDTH, "no trailing gap");
    assert_eq!(action_group_width(0), 0);
}

#[test]
fn an_action_button_is_the_glyph_plus_its_padding() {
    assert_eq!(ACTION_BTN_WIDTH, SIZE + 16);
}

#[test]
fn title_colour_changes_with_playing_state() {
    let colors = AppColors::new();
    assert_eq!(title_color(&colors, true), colors.accent());
    assert_eq!(title_color(&colors, false), colors.text_primary());
}

#[test]
fn six_actions_are_two_hundred_and_two_wide() {
    assert_eq!(action_group_width(6), 6 * 32 + 5 * 2);
    assert_eq!(marker_glyph(true), Some(PLAY));
    assert_eq!(marker_glyph(false), None);
}

// --- icons ---

#[test]
fn glyph_constants_are_unique() {
    let mut seen = HashMap::new();
    for (name, glyph) in all_glyphs() {
        assert_eq!(glyph.chars().count(), 1, "{name} is more than one char");
        if let Some(prev) = seen.insert(glyph, name) {
            panic!("{name} and {prev} are the same glyph {glyph:?}");
        }
    }
    assert_eq!(seen.len(), 17);
}

// --- links ---

#[test]
fn missing_tag_placeholders_are_not_real_names() {
    assert!(!is_real_name(UNKNOWN_ARTIST));
    assert!(!is_real_name(UNKNOWN_ALBUM));
    assert!(!is_real_name(""));
    assert!(is_real_name("Tiamat"));
    assert!(is_real_name("AC/DC"));
}

#[test]
fn album_message_carries_the_artist_when_it_is_real() {
    match album_message("Wildhoney", Some("Tiamat")) {
        Message::AlbumSelected(album, artist) => {
            assert_eq!(album, "Wildhoney");
            assert_eq!(artist.as_deref(), Some("Tiamat"));
        }
        other => panic!("expected AlbumSelected, got {other:?}"),
    }
}

#[test]
fn album_message_drops_a_placeholder_artist() {
    for artist in [Some(UNKNOWN_ARTIST), Some(""), None] {
        match album_message("Greatest Hits", artist) {
            Message::AlbumSelected(_, resolved) => {
                assert_eq!(resolved, None, "placeholder artist {artist:?} should not be sent as an artist")
            }
            other => panic!("expected AlbumSelected, got {other:?}"),
        }
    }
}

#[test]
fn placeholder_names_are_inert() {
    assert_eq!(artist_link_message("Tiamat"), Some(Message::ArtistSelected("Tiamat".to_string())));
    assert_eq!(artist_link_message(UNKNOWN_ARTIST), None);
    assert_eq!(album_link_message(UNKNOWN_ALBUM, Some("Tiamat")), None);
    assert_eq!(
        album_link_message("Wildhoney", Some("Tiamat")),
        Some(Message::AlbumSelected("Wildhoney".to_string(), Some("Tiamat".to_string())))
    );
}

#[test]
fn link_colours_follow_the_pointer() {
    let mut colors = AppColors::new();
    set_dark_mode(&mut colors, false);
    assert_eq!(link_text_color(&colors, ButtonStatus::Hovered), colors.accent());
    assert_eq!(link_text_color(&colors, ButtonStatus::Active), colors.text_secondary());
    assert_eq!(icon_btn_colors(&colors, ButtonStatus::Pressed), (Some(colors.bg_hover()), colors.accent()));
    assert_eq!(icon_btn_colors(&colors, ButtonStatus::Disabled), (None, colors.text_disabled()));
    assert_eq!(icon_btn_colors(&colors, ButtonStatus::Active), (None, colors.text_muted()));
    assert_eq!(danger_btn_colors(&colors, ButtonStatus::Active), (None, colors.error()));
}

// --- player bar ---

#[test]
fn the_transport_glyph_fills_a_reasonable_share_of_its_button() {
    let ratio = f32::from(TRANSPORT_ICON) / f32::from(TRANSPORT_H);
    assert!((0.5..=0.72).contains(&ratio), "glyph/button height ratio {ratio:.2}");
}

#[test]
fn transport_glyph_fits_its_button() {
    let content_h = f32::from(TRANSPORT_H - 2 * TRANSPORT_PAD_Y);
    let line_h = f32::from(TRANSPORT_ICON) * (f32::from(LINE_HEIGHT_TENTHS) / 10.0);
    let slack = f32::from(TRANSPORT_MIN_SLACK_TENTHS) / 10.0;
    assert!(content_h >= line_h + slack, "a {TRANSPORT_ICON}px glyph will render blank");
}

#[test]
fn the_song_info_slot_is_bounded() {
    assert!((200..=320).contains(&SONG_INFO_WIDTH));
}

#[test]
fn times_read_as_minutes_and_seconds() {
    assert_eq!(format_time(0), "0:00");
    assert_eq!(format_time(65), "1:05");
    assert_eq!(format_time(600), "10:00");
    assert_eq!(format_time(3725), "62:05");
}

#[test]
fn the_mode_buttons_say_what_they_do() {
    assert!(repeat_shows_one(SingleState::On));
    assert!(repeat_shows_one(SingleState::Oneshot));
    assert!(!repeat_shows_one(SingleState::Off));
    assert_eq!(single_label(SingleState::Oneshot), "Single 1x");
    assert_eq!(single_label(SingleState::On), "Single");
    assert_eq!(consume_label(ConsumeState::Oneshot), "Consume 1x");
    assert_eq!(consume_label(ConsumeState::Off), "Consume");
    assert!(single_active(SingleState::Oneshot));
    assert!(!consume_active(ConsumeState::Off));
}

#[test]
fn crossfade_steps_by_a_second_and_stops_at_zero() {
    assert_eq!(crossfade_down(0), Message::SetCrossfade(0));
    assert_eq!(crossfade_down(3), Message::SetCrossfade(2));
    assert_eq!(crossfade_up(3), Message::SetCrossfade(4));
    assert_eq!(crossfade_label(3), "3s");
    assert_eq!(volume_caption(42), "42%");
    assert_eq!(volume_caption(-1), "-1%");
}

#[test]
fn the_player_bar_controls() {
    assert_eq!(play_pause_message(true), Message::Pause);
    assert_eq!(play_pause_message(false), Message::Play);
    assert_eq!(replay_gain_modes(), vec!["off", "track", "album", "auto"]);
    let colors = AppColors::new();
    assert_eq!(transport_colors(&colors, true), (colors.accent(), colors.bg_primary()));
    assert_eq!(transport_colors(&colors, false), (colors.bg_tertiary(), colors.text_primary()));
    assert_eq!(mode_colors(&colors, false), (colors.bg_tertiary(), colors.text_muted()));
}

#[test]
fn the_sidebar_reports_the_connection() {
    let colors = AppColors::new();
    assert_eq!(status_text(true, "host:6600"), "Connected\nhost:6600");
    assert_eq!(status_text(false, "host:6600"), "Not connected");
    assert_eq!(status_color(&colors, false), colors.error());
    assert!(!shows_server_picker(1));
    assert!(shows_server_picker(2));
    assert_eq!(nav_colors(&colors, true), (colors.bg_tertiary(), colors.accent()));
    assert_eq!(layout_toggle(true), (LIST, "List"));
    assert_eq!(layout_toggle(false), (GRID, "Grid"));
}
