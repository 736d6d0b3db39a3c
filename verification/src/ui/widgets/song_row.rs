//! Shared row state for song lists: which row is playing, and how it looks.
//!
//! The Queue matches on queue position; every other list matches on the
//! song's URI. A queue can hold the same file twice, and only the position
//! tells those entries apart; every other list is a library listing whose
//! rows have no queue position at all (a stored playlist's index is a
//! playlist index, unrelated to the playing queue position).
use vstd::prelude::*;
use crate::text::str_eq;
use crate::ui::theme::colors::{palette_of, AppColors, Rgb};
use crate::ui::widgets::icon;

verus! {

/// Width of the leading now-playing marker cell: a fixed-width cell that is
/// either the glyph or blank, so that no column shifts with what is playing.
pub const MARKER_WIDTH: u16 = 14;

/// Width of one row-action icon button: the glyph, one em at the icon size,
/// plus 8 of padding on each side.
pub const ACTION_BTN_WIDTH: u16 = icon::SIZE + 8 + 8;

/// Spacing between adjacent row-action buttons.
pub const ACTION_SPACING: u16 = 2;

/// Width of the leading track/position number column.
pub const NUMBER_WIDTH: u16 = 30;

/// Width of the trailing duration column.
pub const DURATION_WIDTH: u16 = 55;

/// The width of `n` action buttons with the spacing between them.
pub open spec fn group_width(n: int) -> int {
    if n == 0 { 0 } else { n * ACTION_BTN_WIDTH + (n - 1) * ACTION_SPACING }
}

/// Total width of a row-action group of `n` buttons. A header that has to
/// line up with the rows below it must reserve exactly this much.
pub fn action_group_width(n: u16) -> (w: u16)
    requires
        group_width(n as int) <= u16::MAX,
    ensures
        w == group_width(n as int),
{
    let gaps: u16 = if n == 0 { 0 } else { n - 1 };
    n * ACTION_BTN_WIDTH + gaps * ACTION_SPACING
}

/// Does this library-list row hold the currently playing track? Compares
/// URIs.
pub fn is_current_uri(row_file: &str, current_file: Option<&str>) -> (r: bool)
    ensures
        r == (current_file matches Some(c) && c@ == row_file@),
{
    match current_file {
        Some(c) => str_eq(c, row_file),
        None => false,
    }
}

/// Does this queue row hold the currently playing track? Compares queue
/// positions, which is right only for the queue itself.
pub fn is_current_pos(row_pos: u32, current_pos: Option<u32>) -> (r: bool)
    ensures
        r == (current_pos == Some(row_pos)),
{
    match current_pos {
        Some(p) => p == row_pos,
        None => false,
    }
}

/// Background for a list row: the playing colour for the playing row,
/// otherwise the zebra stripe of its index.
pub fn row_bg(colors: &AppColors, index: usize, is_current: bool) -> (c: Rgb)
    ensures
        c == (if is_current { palette_of(colors.spec_dark()).row_playing }
            else if index % 2 == 0 { palette_of(colors.spec_dark()).row_even }
            else { palette_of(colors.spec_dark()).row_odd }),
{
    if is_current {
        colors.row_playing()
    } else if index % 2 == 0 {
        colors.row_even()
    } else {
        colors.row_odd()
    }
}

/// Title colour for a list row: the accent for the playing row.
pub fn title_color(colors: &AppColors, is_current: bool) -> (c: Rgb)
    ensures
        c == (if is_current { palette_of(colors.spec_dark()).accent }
            else { palette_of(colors.spec_dark()).text_primary }),
{
    if is_current { colors.accent() } else { colors.text_primary() }
}

/// The glyph of the leading marker cell: the play glyph on the playing row,
/// none (a blank cell of the same width) elsewhere.
pub fn marker_glyph(is_current: bool) -> (g: Option<&'static str>)
    ensures
        is_current ==> g == Some(icon::PLAY),
        !is_current ==> g is None,
{
    if is_current { Some(icon::PLAY) } else { None }
}

/// An action button is the glyph plus its padding, and a group's width is
/// its buttons plus the gaps between them: none after the last.
pub proof fn law_action_widths()
    ensures
        ACTION_BTN_WIDTH == icon::SIZE + 16,
        group_width(0) == 0,
        group_width(1) == ACTION_BTN_WIDTH,
        forall|n: int| n >= 1 ==> #[trigger] group_width(n + 1) == group_width(n) + ACTION_BTN_WIDTH + ACTION_SPACING,
{
}


/// A group of buttons is as wide as its buttons plus one gap between each
/// pair: no width for none, one button's for one, and each further button
/// adds a button and a gap.
pub proof fn law_group_width(n: int)
    requires
        n >= 1,
    ensures
        group_width(0) == 0,
        group_width(1) == ACTION_BTN_WIDTH,
        group_width(n + 1) == group_width(n) + ACTION_BTN_WIDTH + ACTION_SPACING,
{
    assert(group_width(n + 1) == (n + 1) * ACTION_BTN_WIDTH + n * ACTION_SPACING);
    assert((n + 1) * ACTION_BTN_WIDTH == n * ACTION_BTN_WIDTH + ACTION_BTN_WIDTH) by (nonlinear_arith);
    assert(n * ACTION_SPACING == (n - 1) * ACTION_SPACING + ACTION_SPACING) by (nonlinear_arith);
}

} // verus!
