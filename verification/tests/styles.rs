use anstyle::{AnsiColor, Color, RgbColor};

use vtcode_core::utils::diff_styles::DiffColorPalette;
use vtcode_core::utils::style_helpers::{color_from_name, ColorPalette};

#[test]
fn test_default_palette_colors() {
    let palette = DiffColorPalette::default();

    assert_eq!(palette.added_fg, RgbColor(200, 255, 200));
    assert_eq!(palette.added_bg, RgbColor(0, 64, 0));
    assert_eq!(palette.removed_fg, RgbColor(255, 200, 200));
    assert_eq!(palette.removed_bg, RgbColor(64, 0, 0));
    assert_eq!(palette.header_color, AnsiColor::Cyan);
}

#[test]
fn test_color_palette_defaults() {
    let palette = ColorPalette::default();
    assert!(matches!(palette.success, Color::Ansi(AnsiColor::Green)));
    assert!(matches!(palette.error, Color::Ansi(AnsiColor::Red)));
    assert!(matches!(palette.warning, Color::Ansi(AnsiColor::Yellow)));
    assert!(matches!(palette.info, Color::Ansi(AnsiColor::Cyan)));
    assert!(matches!(palette.accent, Color::Ansi(AnsiColor::Blue)));
    assert!(matches!(palette.muted, Color::Ansi(AnsiColor::White)));
}

#[test]
fn colors_are_found_by_name_in_any_case() {
    assert_eq!(color_from_name("red"), Some(AnsiColor::Red));
    assert_eq!(color_from_name("Green"), Some(AnsiColor::Green));
    assert_eq!(color_from_name("BLUE"), Some(AnsiColor::Blue));
    assert_eq!(color_from_name("yellow"), Some(AnsiColor::Yellow));
    assert_eq!(color_from_name("cyan"), Some(AnsiColor::Cyan));
    assert_eq!(color_from_name("magenta"), Some(AnsiColor::Magenta));
    assert_eq!(color_from_name("purple"), Some(AnsiColor::Magenta));
    assert_eq!(color_from_name("white"), Some(AnsiColor::White));
    assert_eq!(color_from_name("black"), Some(AnsiColor::Black));
    // The Kelvin sign is a capital K to `to_lowercase`.
    assert_eq!(color_from_name("blac\u{212A}"), Some(AnsiColor::Black));
    assert_eq!(color_from_name("notacolor"), None);
    assert_eq!(color_from_name(""), None);
    assert_eq!(color_from_name(" red"), None);
}
