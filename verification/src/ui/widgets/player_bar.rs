//! The player bar's decisions: transport geometry, the time and setting
//! captions, and which mode buttons show as active.
use vstd::prelude::*;
use crate::model::{ConsumeState, SingleState};
use crate::text::{decimal, decimal_string, signed_decimal, signed_decimal_string};
use crate::ui::message::Message;
use crate::ui::theme::colors::{palette_of, AppColors, Rgb};

verus! {

/// Size of a transport glyph.
pub const TRANSPORT_ICON: u16 = 20;
/// Height of a transport button.
pub const TRANSPORT_H: u16 = 36;
/// Width of a transport button.
pub const TRANSPORT_W: u16 = 56;
/// Vertical padding of a transport button. Explicit because the default
/// left too small a content box and the glyph did not render at all.
pub const TRANSPORT_PAD_Y: u16 = 3;
/// Slack, in tenths of a pixel, that a transport button keeps over its
/// glyph's line box: a fit that only just holds is one rounding away from a
/// blank button.
pub const TRANSPORT_MIN_SLACK_TENTHS: u16 = 30;
/// The toolkit's default line height, in tenths of the text size.
pub const LINE_HEIGHT_TENTHS: u16 = 13;
/// Width of the bottom-left song-info slot.
pub const SONG_INFO_WIDTH: u16 = 250;

/// A transport glyph fits its button: the content box left by the padding
/// holds the glyph's line box plus the slack.
pub proof fn law_transport_glyph_fits()
    ensures
        (TRANSPORT_H - 2 * TRANSPORT_PAD_Y) * 10 >= TRANSPORT_ICON * LINE_HEIGHT_TENTHS + TRANSPORT_MIN_SLACK_TENTHS,
{
}

/// A transport glyph fills between half and 72% of its button's height:
/// less reads as a speck, more crowds the edges.
pub proof fn law_transport_glyph_share()
    ensures
        50 * TRANSPORT_H <= 100 * TRANSPORT_ICON <= 72 * TRANSPORT_H,
{
}

/// The song-info slot is wide enough for "Artist – Album" and narrow enough
/// to leave the transport controls room at the minimum window width.
pub proof fn law_song_info_width_bounded()
    ensures
        200 <= SONG_INFO_WIDTH <= 320,
{
}

/// MPD's four replay-gain modes, as the protocol names them.
pub fn replay_gain_modes() -> (r: Vec<&'static str>)
    ensures
        r@.len() == 4,
        r@[0]@ == "off"@,
        r@[1]@ == "track"@,
        r@[2]@ == "album"@,
        r@[3]@ == "auto"@,
{
    let mut r: Vec<&'static str> = Vec::new();
    r.push("off");
    r.push("track");
    r.push("album");
    r.push("auto");
    r
}

/// Seconds below 60 as two digits.
pub open spec fn two_digits(s: nat) -> Seq<char> {
    if s < 10 { seq!['0'] + decimal(s) } else { decimal(s) }
}

/// A time of `secs` seconds as `m:ss`.
pub open spec fn clock(secs: nat) -> Seq<char> {
    decimal(secs / 60) + seq![':'] + two_digits(secs % 60)
}

/// A time in whole seconds as `m:ss` (minutes are not wrapped into hours).
pub fn format_time(secs: u64) -> (r: String)
    ensures
        r@ == clock(secs as nat),
{
    let m = secs / 60;
    let s = secs % 60;
    let mut r = decimal_string(m);
    r.append(":");
    proof {
        reveal_strlit(":");
        reveal_strlit("0");
    }
    if s < 10 {
        r.append("0");
    }
    let t = decimal_string(s);
    r.append(t.as_str());
    proof {
        assert(r@ =~= clock(secs as nat));
    }
    r
}

/// Does the Repeat button show the repeat-one glyph? Only while single is
/// on, since that pairing is what repeating one track means.
pub fn repeat_shows_one(single: SingleState) -> (r: bool)
    ensures
        r == (single != SingleState::Off),
{
    single != SingleState::Off
}

/// Is the Single button lit?
pub fn single_active(single: SingleState) -> (r: bool)
    ensures
        r == (single != SingleState::Off),
{
    single != SingleState::Off
}

/// Is the Consume button lit?
pub fn consume_active(consume: ConsumeState) -> (r: bool)
    ensures
        r == (consume != ConsumeState::Off),
{
    consume != ConsumeState::Off
}

/// The Single button's word: "Single 1x" for one track only, else "Single"
/// (the colour already says on or off).
pub fn single_label(single: SingleState) -> (r: &'static str)
    ensures
        r@ == (if single == SingleState::Oneshot { "Single 1x"@ } else { "Single"@ }),
{
    match single {
        SingleState::Oneshot => "Single 1x",
        _ => "Single",
    }
}

/// The Consume button's word: "Consume 1x" for one track only, else
/// "Consume".
pub fn consume_label(consume: ConsumeState) -> (r: &'static str)
    ensures
        r@ == (if consume == ConsumeState::Oneshot { "Consume 1x"@ } else { "Consume"@ }),
{
    match consume {
        ConsumeState::Oneshot => "Consume 1x",
        _ => "Consume",
    }
}

/// What the crossfade minus step asks for: one second less, not below zero.
pub fn crossfade_down(secs: u32) -> (m: Message)
    ensures
        m == Message::SetCrossfade(if secs == 0 { 0 } else { (secs - 1) as u32 }),
{
    Message::SetCrossfade(if secs == 0 { 0 } else { secs - 1 })
}

/// What the crossfade plus step asks for: one second more.
pub fn crossfade_up(secs: u32) -> (m: Message)
    requires
        secs < u32::MAX,
    ensures
        m == Message::SetCrossfade((secs + 1) as u32),
{
    Message::SetCrossfade(secs + 1)
}

/// The crossfade caption, `"{secs}s"`.
pub fn crossfade_label(secs: u32) -> (r: String)
    ensures
        r@ == decimal(secs as nat) + "s"@,
{
    let mut r = decimal_string(secs as u64);
    r.append("s");
    r
}

/// The volume caption, `"{volume}%"`.
pub fn volume_caption(volume: i32) -> (r: String)
    ensures
        r@ == signed_decimal(volume as int) + "%"@,
{
    let mut r = signed_decimal_string(volume as i64);
    r.append("%");
    r
}

/// What the middle transport button asks for: Pause while playing, Play
/// otherwise.
pub fn play_pause_message(is_playing: bool) -> (m: Message)
    ensures
        m == (if is_playing { Message::Pause } else { Message::Play }),
{
    if is_playing { Message::Pause } else { Message::Play }
}

/// Background and glyph colour of a transport button: the accent for the
/// primary (play/pause) one, the tertiary background for the others.
pub fn transport_colors(colors: &AppColors, primary: bool) -> (r: (Rgb, Rgb))
    ensures
        ({
            let p = palette_of(colors.spec_dark());
            r == (if primary { (p.accent, p.bg_primary) } else { (p.bg_tertiary, p.text_primary) })
        }),
{
    if primary { (colors.accent(), colors.bg_primary()) } else { (colors.bg_tertiary(), colors.text_primary()) }
}

/// Background and text colour of a playback-mode button: the accent when
/// the mode is on, muted on the tertiary background when off.
pub fn mode_colors(colors: &AppColors, active: bool) -> (r: (Rgb, Rgb))
    ensures
        ({
            let p = palette_of(colors.spec_dark());
            r == (if active { (p.accent, p.bg_primary) } else { (p.bg_tertiary, p.text_muted) })
        }),
{
    if active { (colors.accent(), colors.bg_primary()) } else { (colors.bg_tertiary(), colors.text_muted()) }
}


/// A time is written as whole minutes, a colon and two digits of
/// seconds: under a minute it reads `0:ss`, and the seconds part always
/// has two digits.
pub proof fn law_clock_shape(secs: nat)
    ensures
        clock(secs) == decimal(secs / 60) + seq![':'] + two_digits(secs % 60),
        two_digits(secs % 60).len() == 2,
        secs < 60 ==> clock(secs) == seq!['0', ':'] + two_digits(secs),
{
    crate::text::law_decimal_is_base_ten(secs % 60);
    if secs % 60 >= 10 {
        let d = decimal(secs % 60);
        assert(d.len() == 2) by {
            reveal_with_fuel(decimal, 3);
        }
    }
    if secs < 60 {
        assert(secs / 60 == 0);
        assert(decimal(0) == seq!['0']);
        assert(secs % 60 == secs);
    }
}

} // verus!
