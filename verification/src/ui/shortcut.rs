//! Keyboard shortcuts.
//!
//! The mapping is a pure function over an explicit [`Context`], so the thing
//! most likely to go wrong (a shortcut firing while someone is typing) is
//! stated and proved here. Bare keys are suppressed on the views that
//! contain a text input, and modifier-based shortcuts work everywhere.
use vstd::prelude::*;
use crate::text::str_eq;
use crate::ui::message::{Message, View};
use vstd::view::View as DataView;

verus! {

/// Milliseconds moved by one arrow-key seek.
pub const SEEK_STEP_MS: u64 = 5000;
/// Volume points moved by one Ctrl+arrow.
pub const VOLUME_STEP: i64 = 5;

/// The named keys that shortcuts are bound to; every other named key is
/// `Other`.
#[derive(Debug, Clone, Copy, PartialEq, Eq, Structural)]
pub enum NamedKey {
    ArrowLeft,
    ArrowRight,
    ArrowUp,
    ArrowDown,
    Escape,
    Space,
    Tab,
    Other,
}

/// A key as the keyboard reports it: a named key, the text of a character
/// key, or a key the platform could not identify.
#[derive(Debug, Clone, PartialEq, Eq)]
pub enum Key {
    Named(NamedKey),
    Character(String),
    Unidentified,
}

/// The modifier state that shortcuts read: whether the platform's command
/// modifier (Ctrl, or Cmd on macOS) is held.
#[derive(Debug, Clone, Copy, PartialEq, Eq, Structural)]
pub struct Modifiers {
    pub command: bool,
}

impl Modifiers {
    /// No modifier held.
    pub fn empty() -> (m: Modifiers)
        ensures
            !m.command,
    {
        Modifiers { command: false }
    }

    /// Only the command modifier held.
    pub fn command_only() -> (m: Modifiers)
        ensures
            m.command,
    {
        Modifiers { command: true }
    }

    /// Is the command modifier held?
    pub fn command(&self) -> (r: bool)
        ensures
            r == self.command,
    {
        self.command
    }
}

/// What [`resolve`] needs to know about the app.
#[derive(Debug, Clone)]
pub struct Context {
    pub view: View,
    pub is_playing: bool,
    /// Milliseconds into the current track.
    pub elapsed_ms: u64,
    /// Track length in milliseconds, for clamping a seek.
    pub duration_ms: u64,
    pub volume: i32,
}

/// Does this view hold a text input? On these, bare keys are text.
pub open spec fn has_text_input(view: View) -> bool {
    match view {
        View::Search | View::Settings | View::Radio | View::CD | View::Partitions
        | View::Playlists | View::AddToPlaylist => true,
        _ => false,
    }
}

/// Does this view hold a `text_input`? Search, Settings, Radio, CD,
/// Partitions, Playlists and Add-to-Playlist do; the playlist detail view
/// does not (the rename field lives in the playlists list).
pub fn view_has_text_input(view: &View) -> (r: bool)
    ensures
        r == has_text_input(*view),
{
    matches!(
        view,
        View::Search
            | View::Settings
            | View::Radio
            | View::CD
            | View::Partitions
            | View::Playlists
            | View::AddToPlaylist
    )
}

/// Is `key` the character key whose text is `text`?
pub open spec fn is_char(key: Key, text: Seq<char>) -> bool {
    key matches Key::Character(c) && c@ == text
}

/// The volume one step up, at most 100.
pub open spec fn volume_up(volume: int) -> int {
    if volume + VOLUME_STEP > 100 { 100 } else { volume + VOLUME_STEP }
}

/// The volume one step down, at least 0.
pub open spec fn volume_down(volume: int) -> int {
    if volume - VOLUME_STEP < 0 { 0 } else { volume - VOLUME_STEP }
}

/// The position one step ahead, at most the track's length.
pub open spec fn seek_forward(elapsed: int, duration: int) -> int {
    if elapsed + SEEK_STEP_MS > duration { duration } else { elapsed + SEEK_STEP_MS }
}

/// The position one step back, at least the start.
pub open spec fn seek_back(elapsed: int) -> int {
    if elapsed - SEEK_STEP_MS < 0 { 0 } else { elapsed - SEEK_STEP_MS }
}

/// What a keypress asks for, if anything. Modified shortcuts come first and
/// work everywhere; Escape needs no gate; bare keys only fire where nothing
/// can be typed.
pub open spec fn shortcut(key: Key, command: bool, ctx: Context) -> Option<Message> {
    let bare_ok = !has_text_input(ctx.view);
    if command && key == Key::Named(NamedKey::ArrowRight) {
        Some(Message::Next)
    } else if command && key == Key::Named(NamedKey::ArrowLeft) {
        Some(Message::Previous)
    } else if command && key == Key::Named(NamedKey::ArrowUp) {
        Some(Message::VolumeChanged(volume_up(ctx.volume as int) as i64))
    } else if command && key == Key::Named(NamedKey::ArrowDown) {
        Some(Message::VolumeChanged(volume_down(ctx.volume as int) as i64))
    } else if command && (is_char(key, "f"@) || is_char(key, "F"@)) {
        Some(Message::FocusSearch)
    } else if key == Key::Named(NamedKey::Escape) {
        Some(Message::GoBack)
    } else if bare_ok && key == Key::Named(NamedKey::Space) {
        Some(if ctx.is_playing { Message::Pause } else { Message::Play })
    } else if bare_ok && key == Key::Named(NamedKey::ArrowRight) {
        Some(Message::SeekTo(seek_forward(ctx.elapsed_ms as int, ctx.duration_ms as int) as u64))
    } else if bare_ok && key == Key::Named(NamedKey::ArrowLeft) {
        Some(Message::SeekTo(seek_back(ctx.elapsed_ms as int) as u64))
    } else if bare_ok && is_char(key, "/"@) {
        Some(Message::FocusSearch)
    } else {
        None
    }
}

fn char_is(key: &Key, text: &str) -> (r: bool)
    ensures
        r == is_char(*key, text@),
{
    match key {
        Key::Character(c) => str_eq(c.as_str(), text),
        _ => false,
    }
}

fn named_is(key: &Key, n: NamedKey) -> (r: bool)
    ensures
        r == (*key == Key::Named(n)),
{
    match key {
        Key::Named(k) => *k == n,
        _ => false,
    }
}

/// Map a keypress to a message, or `None` to ignore it.
pub fn resolve(key: &Key, mods: Modifiers, ctx: &Context) -> (r: Option<Message>)
    ensures
        r == shortcut(*key, mods.command, *ctx),
{
    let bare_ok = !view_has_text_input(&ctx.view);
    let ctrl = mods.command();
    if ctrl && named_is(key, NamedKey::ArrowRight) {
        Some(Message::Next)
    } else if ctrl && named_is(key, NamedKey::ArrowLeft) {
        Some(Message::Previous)
    } else if ctrl && named_is(key, NamedKey::ArrowUp) {
        let v = ctx.volume as i64;
        Some(Message::VolumeChanged(if v + VOLUME_STEP > 100 { 100 } else { v + VOLUME_STEP }))
    } else if ctrl && named_is(key, NamedKey::ArrowDown) {
        let v = ctx.volume as i64;
        Some(Message::VolumeChanged(if v - VOLUME_STEP < 0 { 0 } else { v - VOLUME_STEP }))
    } else if ctrl && (char_is(key, "f") || char_is(key, "F")) {
        Some(Message::FocusSearch)
    } else if named_is(key, NamedKey::Escape) {
        Some(Message::GoBack)
    } else if bare_ok && named_is(key, NamedKey::Space) {
        Some(if ctx.is_playing { Message::Pause } else { Message::Play })
    } else if bare_ok && named_is(key, NamedKey::ArrowRight) {
        let e = ctx.elapsed_ms;
        let d = ctx.duration_ms;
        Some(Message::SeekTo(if e >= d || d - e < SEEK_STEP_MS { d } else { e + SEEK_STEP_MS }))
    } else if bare_ok && named_is(key, NamedKey::ArrowLeft) {
        let e = ctx.elapsed_ms;
        Some(Message::SeekTo(if e < SEEK_STEP_MS { 0 } else { e - SEEK_STEP_MS }))
    } else if bare_ok && char_is(key, "/") {
        Some(Message::FocusSearch)
    } else {
        None
    }
}

/// On a view that holds a text input, no key pressed without the command
/// modifier does anything, except Escape: a shortcut never eats a keystroke
/// meant as text.
pub proof fn law_bare_keys_are_text(key: Key, ctx: Context)
    requires
        has_text_input(ctx.view),
        key != Key::Named(NamedKey::Escape),
    ensures
        shortcut(key, false, ctx) is None,
{
}

/// Escape goes back from every view, whatever modifier is held.
pub proof fn law_escape_goes_back(command: bool, ctx: Context)
    ensures
        shortcut(Key::Named(NamedKey::Escape), command, ctx) == Some(Message::GoBack),
{
}

/// The modified shortcuts work on every view, text inputs or not.
pub proof fn law_modified_shortcuts_work_everywhere(ctx: Context)
    ensures
        shortcut(Key::Named(NamedKey::ArrowRight), true, ctx) == Some(Message::Next),
        shortcut(Key::Named(NamedKey::ArrowLeft), true, ctx) == Some(Message::Previous),
        forall|c: String| c@ == "f"@ ==> shortcut(Key::Character(c), true, ctx) == Some(Message::FocusSearch),
        forall|c: String| c@ == "F"@ ==> shortcut(Key::Character(c), true, ctx) == Some(Message::FocusSearch),
{
}

/// From a volume within 0..=100, a volume shortcut asks for a volume
/// within 0..=100.
pub proof fn law_volume_stays_in_range(key: Key, command: bool, ctx: Context)
    requires
        0 <= ctx.volume <= 100,
    ensures
        shortcut(key, command, ctx) matches Some(Message::VolumeChanged(v)) ==> 0 <= v <= 100,
{
}

/// A seek shortcut never asks for a position before the start, and from a
/// position within the track it never asks for one past its end.
pub proof fn law_seek_stays_in_track(key: Key, command: bool, ctx: Context)
    requires
        ctx.elapsed_ms <= ctx.duration_ms,
    ensures
        shortcut(key, command, ctx) matches Some(Message::SeekTo(t)) ==> t <= ctx.duration_ms,
{
}


/// The views where bare keys are text are exactly the seven with a text
/// input: Search, Settings, Radio, CD, Partitions, Playlists and
/// Add-to-Playlist.
pub proof fn law_text_input_views(view: View)
    ensures
        has_text_input(view) <==> (view is Search || view is Settings || view is Radio || view is CD || view is Partitions
            || view is Playlists || view is AddToPlaylist),
{
}

/// On every other view the bare keys act: Space plays or pauses, the
/// arrows seek five seconds back or ahead (not before the start, not past
/// the end), and `/` focuses the search.
pub proof fn law_bare_keys_act_elsewhere(ctx: Context)
    requires
        !(ctx.view is Search || ctx.view is Settings || ctx.view is Radio || ctx.view is CD
            || ctx.view is Partitions || ctx.view is Playlists || ctx.view is AddToPlaylist),
    ensures
        shortcut(Key::Named(NamedKey::Space), false, ctx)
            == Some(if ctx.is_playing { Message::Pause } else { Message::Play }),
        shortcut(Key::Named(NamedKey::ArrowLeft), false, ctx)
            == Some(Message::SeekTo(if ctx.elapsed_ms < 5000 { 0 } else { (ctx.elapsed_ms - 5000) as u64 })),
        ctx.elapsed_ms <= ctx.duration_ms ==> shortcut(Key::Named(NamedKey::ArrowRight), false, ctx)
            == Some(Message::SeekTo(if ctx.elapsed_ms + 5000 > ctx.duration_ms { ctx.duration_ms } else { (ctx.elapsed_ms + 5000) as u64 })),
        forall|c: String| c@ == "/"@ ==> shortcut(Key::Character(c), false, ctx) == Some(Message::FocusSearch),
{
}

/// With the command modifier the volume moves five points, kept within
/// 0..=100, on every view.
pub proof fn law_volume_keys(ctx: Context)
    requires
        0 <= ctx.volume <= 100,
    ensures
        shortcut(Key::Named(NamedKey::ArrowUp), true, ctx)
            == Some(Message::VolumeChanged(if ctx.volume + 5 > 100 { 100 } else { (ctx.volume + 5) as i64 })),
        shortcut(Key::Named(NamedKey::ArrowDown), true, ctx)
            == Some(Message::VolumeChanged(if ctx.volume - 5 < 0 { 0 } else { (ctx.volume - 5) as i64 })),
{
}

/// Keys with no binding do nothing, modifier or not.
pub proof fn law_unbound_keys(ctx: Context, command: bool)
    ensures
        shortcut(Key::Named(NamedKey::Tab), command, ctx) is None,
        shortcut(Key::Named(NamedKey::Other), command, ctx) is None,
        shortcut(Key::Unidentified, command, ctx) is None,
{
}

} // verus!
