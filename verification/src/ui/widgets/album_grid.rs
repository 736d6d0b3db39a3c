//! The cover grid's Grid/List switch.
use vstd::prelude::*;
use crate::ui::widgets::icon;

verus! {

/// The Grid/List switch: the glyph and word of the layout it switches to.
pub fn layout_toggle(grid_view: bool) -> (r: (&'static str, &'static str))
    ensures
        grid_view ==> r.0 == icon::LIST && r.1@ == "List"@,
        !grid_view ==> r.0 == icon::GRID && r.1@ == "Grid"@,
{
    if grid_view { (icon::LIST, "List") } else { (icon::GRID, "Grid") }
}

} // verus!
