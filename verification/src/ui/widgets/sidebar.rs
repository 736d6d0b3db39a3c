//! The sidebar's connection status, server picker and navigation buttons.
use vstd::prelude::*;
use crate::ui::theme::colors::{palette_of, AppColors, Rgb};
use vstd::view::View as DataView;

verus! {

/// The connection status line: `"Connected\n{addr}"`, or "Not connected".
pub fn status_text(connected: bool, mpd_addr: &str) -> (r: String)
    ensures
        connected ==> r@ == "Connected\n"@ + mpd_addr@,
        !connected ==> r@ == "Not connected"@,
{
    if connected {
        let mut r = String::from_str("Connected\n");
        r.append(mpd_addr);
        r
    } else {
        String::from_str("Not connected")
    }
}

/// The colour of the status line: success when connected, error when not.
pub fn status_color(colors: &AppColors, connected: bool) -> (c: Rgb)
    ensures
        c == (if connected { palette_of(colors.spec_dark()).success } else { palette_of(colors.spec_dark()).error }),
{
    if connected { colors.success() } else { colors.error() }
}

/// Is the server picker shown? Only when there is a choice to make.
pub fn shows_server_picker(server_count: usize) -> (r: bool)
    ensures
        r == (server_count > 1),
{
    server_count > 1
}

/// Background and label colour of a navigation button: highlighted with the
/// accent when its view is the one open.
pub fn nav_colors(colors: &AppColors, is_active: bool) -> (r: (Rgb, Rgb))
    ensures
        ({
            let p = palette_of(colors.spec_dark());
            r == (if is_active { (p.bg_tertiary, p.accent) } else { (p.bg_secondary, p.text_secondary) })
        }),
{
    if is_active { (colors.bg_tertiary(), colors.accent()) } else { (colors.bg_secondary(), colors.text_secondary()) }
}

} // verus!
