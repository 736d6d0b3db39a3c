use winrmpc::ui::theme::colors::{dark, is_dark_mode, light, set_dark_mode, AppColors, Palette, Rgb};

fn luma(c: Rgb) -> f32 {
    0.2126 * (c.r as f32 / 1000.0) + 0.7152 * (c.g as f32 / 1000.0) + 0.0722 * (c.b as f32 / 1000.0)
}

#[test]
fn the_accessors_follow_the_mode() {
    let mut colors = AppColors::new();
    set_dark_mode(&mut colors, true);
    assert_eq!(colors.bg_primary(), dark().bg_primary);
    set_dark_mode(&mut colors, false);
    assert_eq!(colors.bg_primary(), light().bg_primary);
}

#[test]
fn the_playing_row_is_distinguishable_in_both_palettes() {
    for (name, p) in [("dark", dark()), ("light", light())] {
        assert_ne!(p.row_playing, p.row_even, "{name}: playing == even stripe");
        assert_ne!(p.row_playing, p.row_odd, "{name}: playing == odd stripe");
        assert_ne!(p.row_playing, p.bg_hover, "{name}: playing == hover");
        assert_ne!(p.row_even, p.row_odd, "{name}: stripes are identical");
    }
}

#[test]
fn foreground_and_background_are_on_opposite_sides_in_both_palettes() {
    for (name, p) in [("dark", dark()), ("light", light())] {
        let bg = luma(p.bg_primary);
        for (label, fg) in [
            ("text_primary", p.text_primary),
            ("text_secondary", p.text_secondary),
            ("accent", p.accent),
            ("error", p.error),
            ("success", p.success),
            ("warning", p.warning),
        ] {
            assert!(
                (luma(fg) - bg).abs() > 0.25,
                "{name}: {label} has too little contrast against bg_primary ({:.2} vs {:.2})",
                luma(fg),
                bg
            );
        }
    }
}

#[test]
fn the_light_accent_is_dark_enough_to_read_on_white() {
    assert!(luma(light().accent) < 0.45, "light accent is too bright to read as text on a light row");
    assert!(luma(dark().accent) > 0.55, "dark accent is too dim to read as text on a dark row");
}

#[test]
fn dark_is_the_default_mode_and_the_mode_reads_back() {
    let mut colors = AppColors::new();
    assert!(is_dark_mode(&colors));
    set_dark_mode(&mut colors, false);
    assert!(!is_dark_mode(&colors));
    let p: Palette = colors.active();
    assert_eq!(p, light());
    assert_eq!(colors.accent(), Rgb { r: 50, g: 400, b: 630 });
    set_dark_mode(&mut colors, true);
    assert_eq!(colors.accent(), Rgb { r: 310, g: 760, b: 970 });
    assert_eq!(colors.row_odd(), Rgb { r: 150, g: 150, b: 190 });
}
