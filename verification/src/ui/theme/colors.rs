//! The app's colour palette, in light and dark.
//!
//! Colours are held in thousandths of full intensity per channel, which is
//! exact for every colour the palettes use. The active mode is explicit
//! state in [`AppColors`]: the shell keeps one and switches it at startup and
//! from the Settings toggle.
use vstd::prelude::*;

verus! {

/// A colour: red, green and blue, each in thousandths of full intensity
/// (0 to 1000).
#[derive(Debug, Clone, Copy, PartialEq, Eq, Structural)]
pub struct Rgb {
    pub r: u16,
    pub g: u16,
    pub b: u16,
}

/// Every colour the app draws with, in one mode.
#[derive(Debug, Clone, Copy, PartialEq, Eq, Structural)]
pub struct Palette {
    pub bg_primary: Rgb,
    pub bg_secondary: Rgb,
    pub bg_tertiary: Rgb,
    pub bg_hover: Rgb,
    pub row_even: Rgb,
    pub row_odd: Rgb,
    pub row_playing: Rgb,
    pub text_primary: Rgb,
    pub text_secondary: Rgb,
    pub text_muted: Rgb,
    pub text_disabled: Rgb,
    pub accent: Rgb,
    pub accent_dim: Rgb,
    pub success: Rgb,
    pub warning: Rgb,
    pub error: Rgb,
    pub border: Rgb,
    pub progress_bg: Rgb,
    pub progress_fill: Rgb,
}

/// The dark palette, the one the app shipped with.
pub open spec fn dark_palette() -> Palette {
    Palette {
        bg_primary: Rgb { r: 110, g: 110, b: 140 },
        bg_secondary: Rgb { r: 140, g: 140, b: 180 },
        bg_tertiary: Rgb { r: 180, g: 180, b: 220 },
        bg_hover: Rgb { r: 220, g: 220, b: 280 },
        row_even: Rgb { r: 130, g: 130, b: 160 },
        row_odd: Rgb { r: 150, g: 150, b: 190 },
        row_playing: Rgb { r: 170, g: 190, b: 250 },
        text_primary: Rgb { r: 930, g: 930, b: 950 },
        text_secondary: Rgb { r: 620, g: 620, b: 680 },
        text_muted: Rgb { r: 420, g: 420, b: 480 },
        text_disabled: Rgb { r: 240, g: 240, b: 280 },
        accent: Rgb { r: 310, g: 760, b: 970 },
        accent_dim: Rgb { r: 200, g: 500, b: 650 },
        success: Rgb { r: 300, g: 850, b: 500 },
        warning: Rgb { r: 950, g: 750, b: 250 },
        error: Rgb { r: 900, g: 300, b: 300 },
        border: Rgb { r: 250, g: 250, b: 300 },
        progress_bg: Rgb { r: 200, g: 200, b: 250 },
        progress_fill: Rgb { r: 310, g: 760, b: 970 },
    }
}

/// The light palette. Not a mechanical inversion: its accent is much darker
/// (it is also the playing track's text colour), its playing row is a blue
/// tint rather than a grey step, and its warning and success colours are
/// darkened well past their dark values.
pub open spec fn light_palette() -> Palette {
    Palette {
        bg_primary: Rgb { r: 970, g: 970, b: 980 },
        bg_secondary: Rgb { r: 940, g: 940, b: 960 },
        bg_tertiary: Rgb { r: 900, g: 900, b: 930 },
        bg_hover: Rgb { r: 850, g: 860, b: 900 },
        row_even: Rgb { r: 990, g: 990, b: 1000 },
        row_odd: Rgb { r: 955, g: 955, b: 975 },
        row_playing: Rgb { r: 840, g: 900, b: 970 },
        text_primary: Rgb { r: 100, g: 100, b: 140 },
        text_secondary: Rgb { r: 340, g: 340, b: 410 },
        text_muted: Rgb { r: 500, g: 500, b: 570 },
        text_disabled: Rgb { r: 720, g: 720, b: 760 },
        accent: Rgb { r: 50, g: 400, b: 630 },
        accent_dim: Rgb { r: 420, g: 600, b: 720 },
        success: Rgb { r: 80, g: 500, b: 260 },
        warning: Rgb { r: 600, g: 420, b: 20 },
        error: Rgb { r: 720, g: 130, b: 130 },
        border: Rgb { r: 790, g: 790, b: 840 },
        progress_bg: Rgb { r: 840, g: 840, b: 880 },
        progress_fill: Rgb { r: 50, g: 400, b: 630 },
    }
}

/// The palette of a mode.
pub open spec fn palette_of(dark: bool) -> Palette {
    if dark { dark_palette() } else { light_palette() }
}

/// The dark palette.
pub fn dark() -> (p: Palette)
    ensures
        p == dark_palette(),
{
    Palette {
        bg_primary: Rgb { r: 110, g: 110, b: 140 },
        bg_secondary: Rgb { r: 140, g: 140, b: 180 },
        bg_tertiary: Rgb { r: 180, g: 180, b: 220 },
        bg_hover: Rgb { r: 220, g: 220, b: 280 },
        row_even: Rgb { r: 130, g: 130, b: 160 },
        row_odd: Rgb { r: 150, g: 150, b: 190 },
        row_playing: Rgb { r: 170, g: 190, b: 250 },
        text_primary: Rgb { r: 930, g: 930, b: 950 },
        text_secondary: Rgb { r: 620, g: 620, b: 680 },
        text_muted: Rgb { r: 420, g: 420, b: 480 },
        text_disabled: Rgb { r: 240, g: 240, b: 280 },
        accent: Rgb { r: 310, g: 760, b: 970 },
        accent_dim: Rgb { r: 200, g: 500, b: 650 },
        success: Rgb { r: 300, g: 850, b: 500 },
        warning: Rgb { r: 950, g: 750, b: 250 },
        error: Rgb { r: 900, g: 300, b: 300 },
        border: Rgb { r: 250, g: 250, b: 300 },
        progress_bg: Rgb { r: 200, g: 200, b: 250 },
        progress_fill: Rgb { r: 310, g: 760, b: 970 },
    }
}

/// The light palette.
pub fn light() -> (p: Palette)
    ensures
        p == light_palette(),
{
    Palette {
        bg_primary: Rgb { r: 970, g: 970, b: 980 },
        bg_secondary: Rgb { r: 940, g: 940, b: 960 },
        bg_tertiary: Rgb { r: 900, g: 900, b: 930 },
        bg_hover: Rgb { r: 850, g: 860, b: 900 },
        row_even: Rgb { r: 990, g: 990, b: 1000 },
        row_odd: Rgb { r: 955, g: 955, b: 975 },
        row_playing: Rgb { r: 840, g: 900, b: 970 },
        text_primary: Rgb { r: 100, g: 100, b: 140 },
        text_secondary: Rgb { r: 340, g: 340, b: 410 },
        text_muted: Rgb { r: 500, g: 500, b: 570 },
        text_disabled: Rgb { r: 720, g: 720, b: 760 },
        accent: Rgb { r: 50, g: 400, b: 630 },
        accent_dim: Rgb { r: 420, g: 600, b: 720 },
        success: Rgb { r: 80, g: 500, b: 260 },
        warning: Rgb { r: 600, g: 420, b: 20 },
        error: Rgb { r: 720, g: 130, b: 130 },
        border: Rgb { r: 790, g: 790, b: 840 },
        progress_bg: Rgb { r: 840, g: 840, b: 880 },
        progress_fill: Rgb { r: 50, g: 400, b: 630 },
    }
}

/// The active colour mode, and the colours it draws with.
#[derive(Debug, Clone, Copy)]
pub struct AppColors {
    dark: bool,
}

impl AppColors {
    /// Is the dark mode active?
    pub closed spec fn spec_dark(&self) -> bool {
        self.dark
    }

    /// Dark is the default mode.
    pub fn new() -> (c: AppColors)
        ensures
            c.spec_dark(),
    {
        AppColors { dark: true }
    }

    /// The palette of the active mode.
    pub fn active(&self) -> (p: Palette)
        ensures
            p == palette_of(self.spec_dark()),
    {
        if self.dark { dark() } else { light() }
    }

    pub fn bg_primary(&self) -> (c: Rgb)
        ensures
            c == palette_of(self.spec_dark()).bg_primary,
    {
        self.active().bg_primary
    }

    pub fn bg_secondary(&self) -> (c: Rgb)
        ensures
            c == palette_of(self.spec_dark()).bg_secondary,
    {
        self.active().bg_secondary
    }

    pub fn bg_tertiary(&self) -> (c: Rgb)
        ensures
            c == palette_of(self.spec_dark()).bg_tertiary,
    {
        self.active().bg_tertiary
    }

    pub fn bg_hover(&self) -> (c: Rgb)
        ensures
            c == palette_of(self.spec_dark()).bg_hover,
    {
        self.active().bg_hover
    }

    pub fn row_even(&self) -> (c: Rgb)
        ensures
            c == palette_of(self.spec_dark()).row_even,
    {
        self.active().row_even
    }

    pub fn row_odd(&self) -> (c: Rgb)
        ensures
            c == palette_of(self.spec_dark()).row_odd,
    {
        self.active().row_odd
    }

    pub fn row_playing(&self) -> (c: Rgb)
        ensures
            c == palette_of(self.spec_dark()).row_playing,
    {
        self.active().row_playing
    }

    pub fn text_primary(&self) -> (c: Rgb)
        ensures
            c == palette_of(self.spec_dark()).text_primary,
    {
        self.active().text_primary
    }

    pub fn text_secondary(&self) -> (c: Rgb)
        ensures
            c == palette_of(self.spec_dark()).text_secondary,
    {
        self.active().text_secondary
    }

    pub fn text_muted(&self) -> (c: Rgb)
        ensures
            c == palette_of(self.spec_dark()).text_muted,
    {
        self.active().text_muted
    }

    pub fn text_disabled(&self) -> (c: Rgb)
        ensures
            c == palette_of(self.spec_dark()).text_disabled,
    {
        self.active().text_disabled
    }

    pub fn accent(&self) -> (c: Rgb)
        ensures
            c == palette_of(self.spec_dark()).accent,
    {
        self.active().accent
    }

    pub fn accent_dim(&self) -> (c: Rgb)
        ensures
            c == palette_of(self.spec_dark()).accent_dim,
    {
        self.active().accent_dim
    }

    pub fn success(&self) -> (c: Rgb)
        ensures
            c == palette_of(self.spec_dark()).success,
    {
        self.active().success
    }

    pub fn warning(&self) -> (c: Rgb)
        ensures
            c == palette_of(self.spec_dark()).warning,
    {
        self.active().warning
    }

    pub fn error(&self) -> (c: Rgb)
        ensures
            c == palette_of(self.spec_dark()).error,
    {
        self.active().error
    }

    pub fn border(&self) -> (c: Rgb)
        ensures
            c == palette_of(self.spec_dark()).border,
    {
        self.active().border
    }

    pub fn progress_bg(&self) -> (c: Rgb)
        ensures
            c == palette_of(self.spec_dark()).progress_bg,
    {
        self.active().progress_bg
    }

    pub fn progress_fill(&self) -> (c: Rgb)
        ensures
            c == palette_of(self.spec_dark()).progress_fill,
    {
        self.active().progress_fill
    }
}

/// Switch palettes.
pub fn set_dark_mode(colors: &mut AppColors, dark: bool)
    ensures
        final(colors).spec_dark() == dark,
{
    colors.dark = dark;
}

/// Is the dark palette active?
pub fn is_dark_mode(colors: &AppColors) -> (r: bool)
    ensures
        r == colors.spec_dark(),
{
    colors.dark
}

/// A coarse brightness of a colour, from 0 to 10,000,000: the Rec. 709
/// weights (0.2126, 0.7152, 0.0722) in ten-thousandths applied to the
/// channels in thousandths.
pub open spec fn luma(c: Rgb) -> int {
    2126 * c.r + 7152 * c.g + 722 * c.b
}

/// In both palettes the playing row differs from both zebra stripes and from
/// the hover colour, and the two stripes differ from each other.
pub proof fn law_playing_row_distinguishable(dark: bool)
    ensures
        palette_of(dark).row_playing != palette_of(dark).row_even,
        palette_of(dark).row_playing != palette_of(dark).row_odd,
        palette_of(dark).row_playing != palette_of(dark).bg_hover,
        palette_of(dark).row_even != palette_of(dark).row_odd,
{
}

/// In both palettes the text, accent and status colours sit more than a
/// quarter of the brightness range away from the main background.
pub proof fn law_foreground_contrasts_with_background(dark: bool)
    ensures
        ({
            let p = palette_of(dark);
            let bg = luma(p.bg_primary);
            &&& (luma(p.text_primary) - bg > 2500000 || bg - luma(p.text_primary) > 2500000)
            &&& (luma(p.text_secondary) - bg > 2500000 || bg - luma(p.text_secondary) > 2500000)
            &&& (luma(p.accent) - bg > 2500000 || bg - luma(p.accent) > 2500000)
            &&& (luma(p.error) - bg > 2500000 || bg - luma(p.error) > 2500000)
            &&& (luma(p.success) - bg > 2500000 || bg - luma(p.success) > 2500000)
            &&& (luma(p.warning) - bg > 2500000 || bg - luma(p.warning) > 2500000)
        }),
{
}

/// The accent, which is also the playing track's text colour, is dark
/// enough to read on the light rows and bright enough on the dark ones.
pub proof fn law_accent_reads_on_rows()
    ensures
        luma(light_palette().accent) < 4500000,
        luma(dark_palette().accent) > 5500000,
{
}


/// Dark mode is dark: its background is darker and its text lighter than
/// the light palette's, for every background and text colour.
pub proof fn law_dark_mode_is_dark()
    ensures
        luma(palette_of(true).bg_primary) < luma(palette_of(false).bg_primary),
        luma(palette_of(true).bg_secondary) < luma(palette_of(false).bg_secondary),
        luma(palette_of(true).bg_tertiary) < luma(palette_of(false).bg_tertiary),
        luma(palette_of(true).text_primary) > luma(palette_of(false).text_primary),
        luma(palette_of(true).text_secondary) > luma(palette_of(false).text_secondary),
        luma(palette_of(true).bg_primary) < luma(palette_of(true).text_primary),
        luma(palette_of(false).bg_primary) > luma(palette_of(false).text_primary),
{
}

} // verus!
