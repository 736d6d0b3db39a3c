use winrmpc::ui::message::{Message, View};
use winrmpc::ui::shortcut::{resolve, view_has_text_input, Context, Key, Modifiers, NamedKey};

fn ctx(view: View) -> Context {
    Context { view, is_playing: true, elapsed_ms: 30_000, duration_ms: 200_000, volume: 50 }
}

fn named(n: NamedKey) -> Key {
    Key::Named(n)
}

fn ch(c: &str) -> Key {
    Key::Character(c.to_string())
}

#[test]
fn bare_keys_never_fire_on_a_view_with_a_text_input() {
    for view in [
        View::Search,
        View::Settings,
        View::Radio,
        View::CD,
        View::Partitions,
        View::Playlists,
        View::AddToPlaylist,
    ] {
        let c = ctx(view.clone());
        for key in [named(NamedKey::Space), named(NamedKey::ArrowLeft), named(NamedKey::ArrowRight), ch("/")] {
            assert!(resolve(&key, Modifiers::empty(), &c).is_none(), "{key:?} must be text on {view:?}");
        }
    }
}

#[test]
fn space_toggles_playback_everywhere_else() {
    for view in [View::NowPlaying, View::Queue, View::Albums, View::Browser] {
        let mut c = ctx(view.clone());
        assert!(matches!(resolve(&named(NamedKey::Space), Modifiers::empty(), &c), Some(Message::Pause)));
        c.is_playing = false;
        assert!(matches!(resolve(&named(NamedKey::Space), Modifiers::empty(), &c), Some(Message::Play)));
    }
}

#[test]
fn modified_shortcuts_work_even_where_text_is_typed() {
    let c = ctx(View::Settings);
    assert!(matches!(resolve(&named(NamedKey::ArrowRight), Modifiers::command_only(), &c), Some(Message::Next)));
    assert!(matches!(resolve(&named(NamedKey::ArrowLeft), Modifiers::command_only(), &c), Some(Message::Previous)));
    assert!(matches!(resolve(&ch("f"), Modifiers::command_only(), &c), Some(Message::FocusSearch)));
}

#[test]
fn seeking_is_clamped_to_the_track() {
    let mut c = ctx(View::NowPlaying);
    c.elapsed_ms = 2_000;
    match resolve(&named(NamedKey::ArrowLeft), Modifiers::empty(), &c) {
        Some(Message::SeekTo(t)) => assert_eq!(t, 0, "must not seek before the start"),
        other => panic!("expected SeekTo, got {other:?}"),
    }
    c.elapsed_ms = 199_000;
    match resolve(&named(NamedKey::ArrowRight), Modifiers::empty(), &c) {
        Some(Message::SeekTo(t)) => assert_eq!(t, 200_000, "must not seek past the end"),
        other => panic!("expected SeekTo, got {other:?}"),
    }
}

#[test]
fn volume_is_clamped_to_its_range() {
    let mut c = ctx(View::NowPlaying);
    c.volume = 98;
    match resolve(&named(NamedKey::ArrowUp), Modifiers::command_only(), &c) {
        Some(Message::VolumeChanged(v)) => assert_eq!(v, 100),
        other => panic!("expected VolumeChanged, got {other:?}"),
    }
    c.volume = 2;
    match resolve(&named(NamedKey::ArrowDown), Modifiers::command_only(), &c) {
        Some(Message::VolumeChanged(v)) => assert_eq!(v, 0),
        other => panic!("expected VolumeChanged, got {other:?}"),
    }
}

#[test]
fn escape_goes_back_from_anywhere() {
    for view in [View::Search, View::Settings, View::NowPlaying] {
        assert!(matches!(resolve(&named(NamedKey::Escape), Modifiers::empty(), &ctx(view)), Some(Message::GoBack)));
    }
}

#[test]
fn unbound_keys_are_ignored() {
    let c = ctx(View::NowPlaying);
    assert!(resolve(&ch("q"), Modifiers::empty(), &c).is_none());
    assert!(resolve(&named(NamedKey::Tab), Modifiers::empty(), &c).is_none());
}

#[test]
fn seeking_moves_five_seconds_inside_the_track() {
    let c = ctx(View::Queue);
    assert_eq!(resolve(&named(NamedKey::ArrowRight), Modifiers::empty(), &c), Some(Message::SeekTo(35_000)));
    assert_eq!(resolve(&named(NamedKey::ArrowLeft), Modifiers::empty(), &c), Some(Message::SeekTo(25_000)));
}

#[test]
fn volume_steps_by_five() {
    let c = ctx(View::Queue);
    assert_eq!(resolve(&named(NamedKey::ArrowUp), Modifiers::command_only(), &c), Some(Message::VolumeChanged(55)));
    assert_eq!(resolve(&named(NamedKey::ArrowDown), Modifiers::command_only(), &c), Some(Message::VolumeChanged(45)));
}

#[test]
fn slash_and_capital_f_focus_search() {
    let c = ctx(View::Queue);
    assert_eq!(resolve(&ch("/"), Modifiers::empty(), &c), Some(Message::FocusSearch));
    assert_eq!(resolve(&ch("F"), Modifiers::command_only(), &c), Some(Message::FocusSearch));
    assert!(resolve(&ch("f"), Modifiers::empty(), &c).is_none());
    assert!(resolve(&Key::Unidentified, Modifiers::command_only(), &c).is_none());
}

#[test]
fn the_text_input_views_are_the_seven() {
    assert!(view_has_text_input(&View::Search));
    assert!(view_has_text_input(&View::AddToPlaylist));
    assert!(!view_has_text_input(&View::PlaylistDetail("x".to_string())));
    assert!(!view_has_text_input(&View::NowPlaying));
    assert!(Modifiers::command_only().command());
    assert!(!Modifiers::empty().command());
}
