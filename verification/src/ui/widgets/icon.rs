//! The glyphs the UI draws from its bundled icon font.
//!
//! Every non-decorative glyph in the UI comes from here, so that none of
//! them depends on a system font.
use vstd::prelude::*;

verus! {

/// Family name recorded inside the bundled font.
pub const FAMILY: &'static str = "winrmpc Icons";

/// Default size for a row-action glyph.
pub const SIZE: u16 = 16;

/// `play_arrow`: play this track now.
pub const PLAY: &'static str = "\u{e037}";
/// `add`: append to the end of the queue.
pub const ADD_QUEUE: &'static str = "\u{e145}";
/// `queue_play_next`: insert directly after the current track.
pub const PLAY_NEXT: &'static str = "\u{e066}";
/// `playlist_add`: open the "add to stored playlist" picker.
pub const ADD_PLAYLIST: &'static str = "\u{e03b}";
/// `arrow_upward`: move this row up.
pub const MOVE_UP: &'static str = "\u{e5d8}";
/// `arrow_downward`: move this row down.
pub const MOVE_DOWN: &'static str = "\u{e5db}";
/// `close`: remove or delete this row.
pub const REMOVE: &'static str = "\u{e5cd}";
/// `grid_view`: the cover-grid layout toggle.
pub const GRID: &'static str = "\u{e9b0}";
/// `list`: the compact-list layout toggle.
pub const LIST: &'static str = "\u{e896}";
/// `fiber_manual_record`: a filled status dot.
pub const DOT: &'static str = "\u{e061}";
/// `warning`: the slow-command and missing-file marker.
pub const WARNING: &'static str = "\u{f083}";
/// `music_note`: the "instrumental, no lyrics" marker.
pub const MUSIC_NOTE: &'static str = "\u{e405}";
/// `queue_music`: the "playing from <playlist>" marker.
pub const QUEUE_MUSIC: &'static str = "\u{e03d}";
/// `remove`: the step down in the player bar.
pub const MINUS: &'static str = "\u{e15b}";
/// `history`: the Recently Played link.
pub const HISTORY: &'static str = "\u{e8b3}";
/// `check`: an affirmative marker.
pub const CHECK: &'static str = "\u{e668}";
/// `arrow_forward`: "move this to <target>".
pub const ARROW_FORWARD: &'static str = "\u{e5c8}";

/// The text of every glyph above, in the order [`all_glyphs`] lists them.
pub open spec fn glyph_texts() -> Seq<Seq<char>> {
    seq![
        PLAY@,
        ADD_QUEUE@,
        PLAY_NEXT@,
        ADD_PLAYLIST@,
        MOVE_UP@,
        MOVE_DOWN@,
        REMOVE@,
        GRID@,
        LIST@,
        DOT@,
        WARNING@,
        MUSIC_NOTE@,
        QUEUE_MUSIC@,
        MINUS@,
        HISTORY@,
        CHECK@,
        ARROW_FORWARD@,
    ]
}

/// Every glyph above, by name.
pub fn all_glyphs() -> (r: Vec<(&'static str, &'static str)>)
    ensures
        r@.len() == glyph_texts().len(),
        forall|i: int| 0 <= i < r@.len() ==> (#[trigger] r@[i]).1@ == glyph_texts()[i],
{
    let mut r: Vec<(&'static str, &'static str)> = Vec::new();
    r.push(("PLAY", PLAY));
    r.push(("ADD_QUEUE", ADD_QUEUE));
    r.push(("PLAY_NEXT", PLAY_NEXT));
    r.push(("ADD_PLAYLIST", ADD_PLAYLIST));
    r.push(("MOVE_UP", MOVE_UP));
    r.push(("MOVE_DOWN", MOVE_DOWN));
    r.push(("REMOVE", REMOVE));
    r.push(("GRID", GRID));
    r.push(("LIST", LIST));
    r.push(("DOT", DOT));
    r.push(("WARNING", WARNING));
    r.push(("MUSIC_NOTE", MUSIC_NOTE));
    r.push(("QUEUE_MUSIC", QUEUE_MUSIC));
    r.push(("MINUS", MINUS));
    r.push(("HISTORY", HISTORY));
    r.push(("CHECK", CHECK));
    r.push(("ARROW_FORWARD", ARROW_FORWARD));
    proof {
        assert(r@.len() == glyph_texts().len());
    }
    r
}

/// Each glyph is one character, and no two glyphs are the same.
pub proof fn law_glyphs_are_distinct()
    ensures
        forall|i: int| 0 <= i < glyph_texts().len() ==> (#[trigger] glyph_texts()[i]).len() == 1,
        forall|i: int, j: int|
            0 <= i < j < glyph_texts().len() ==> #[trigger] glyph_texts()[i] != #[trigger] glyph_texts()[j],
{
    reveal_strlit("\u{e037}");
    reveal_strlit("\u{e145}");
    reveal_strlit("\u{e066}");
    reveal_strlit("\u{e03b}");
    reveal_strlit("\u{e5d8}");
    reveal_strlit("\u{e5db}");
    reveal_strlit("\u{e5cd}");
    reveal_strlit("\u{e9b0}");
    reveal_strlit("\u{e896}");
    reveal_strlit("\u{e061}");
    reveal_strlit("\u{f083}");
    reveal_strlit("\u{e405}");
    reveal_strlit("\u{e03d}");
    reveal_strlit("\u{e15b}");
    reveal_strlit("\u{e8b3}");
    reveal_strlit("\u{e668}");
    reveal_strlit("\u{e5c8}");
    assert forall|i: int, j: int|
        0 <= i < j < glyph_texts().len() implies #[trigger] glyph_texts()[i] != #[trigger] glyph_texts()[j] by {
        assert(glyph_texts()[i][0] != glyph_texts()[j][0]);
    }
}

} // verus!
