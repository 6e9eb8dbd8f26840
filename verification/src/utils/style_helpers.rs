//! The colors of the interface, by meaning and by name.

use crate::text::{str_is, to_chars};
use anstyle::{Ansi256Color, AnsiColor, Color, RgbColor};
use vstd::prelude::*;

verus! {

/// `anstyle::AnsiColor`: the sixteen colors of the terminal palette.
#[verifier::external_type_specification]
pub struct ExAnsiColor(AnsiColor);

/// `anstyle::Ansi256Color`: a color of the 256-color palette.
#[verifier::external_type_specification]
pub struct ExAnsi256Color(Ansi256Color);

/// `anstyle::RgbColor`: a color by its red, green and blue parts.
#[verifier::external_type_specification]
pub struct ExRgbColor(RgbColor);

/// `anstyle::Color`: a color of any of the three schemes.
#[verifier::external_type_specification]
pub struct ExColor(Color);

/// The text in lower case, as `str::to_lowercase` gives it.
pub uninterp spec fn lowercased(text: Seq<char>) -> Seq<char>;

/// `str::to_lowercase`.
#[verifier::external_body]
fn to_lowercase(text: &str) -> (r: String)
    ensures
        r@ == lowercased(text@),
{
    text.to_lowercase()
}

/// The colors of the interface by what they stand for.
#[derive(Debug, Clone, Copy)]
pub struct ColorPalette {
    pub success: Color,
    pub error: Color,
    pub warning: Color,
    pub info: Color,
    pub accent: Color,
    pub muted: Color,
}

impl ColorPalette {
    /// Green for success, red for errors, yellow for warnings, cyan for
    /// information, blue for accents and white for muted text.
    pub fn default() -> (r: Self)
        ensures
            r.success == Color::Ansi(AnsiColor::Green),
            r.error == Color::Ansi(AnsiColor::Red),
            r.warning == Color::Ansi(AnsiColor::Yellow),
            r.info == Color::Ansi(AnsiColor::Cyan),
            r.accent == Color::Ansi(AnsiColor::Blue),
            r.muted == Color::Ansi(AnsiColor::White),
    {
        ColorPalette {
            success: Color::Ansi(AnsiColor::Green),
            error: Color::Ansi(AnsiColor::Red),
            warning: Color::Ansi(AnsiColor::Yellow),
            info: Color::Ansi(AnsiColor::Cyan),
            accent: Color::Ansi(AnsiColor::Blue),
            muted: Color::Ansi(AnsiColor::White),
        }
    }
}

/// The color that a name in lower case stands for; `purple` is magenta.
pub open spec fn named_color(name: Seq<char>) -> Option<AnsiColor> {
    if name == "red"@ {
        Some(AnsiColor::Red)
    } else if name == "green"@ {
        Some(AnsiColor::Green)
    } else if name == "blue"@ {
        Some(AnsiColor::Blue)
    } else if name == "yellow"@ {
        Some(AnsiColor::Yellow)
    } else if name == "cyan"@ {
        Some(AnsiColor::Cyan)
    } else if name == "magenta"@ || name == "purple"@ {
        Some(AnsiColor::Magenta)
    } else if name == "white"@ {
        Some(AnsiColor::White)
    } else if name == "black"@ {
        Some(AnsiColor::Black)
    } else {
        None
    }
}

/// The terminal color that a color name stands for, whatever its case.
pub fn color_from_name(name: &str) -> (r: Option<AnsiColor>)
    ensures
        r == named_color(lowercased(name@)),
{
    let lowered = to_lowercase(name);
    let key = to_chars(lowered.as_str());
    if str_is(&key, "red") {
        Some(AnsiColor::Red)
    } else if str_is(&key, "green") {
        Some(AnsiColor::Green)
    } else if str_is(&key, "blue") {
        Some(AnsiColor::Blue)
    } else if str_is(&key, "yellow") {
        Some(AnsiColor::Yellow)
    } else if str_is(&key, "cyan") {
        Some(AnsiColor::Cyan)
    } else if str_is(&key, "magenta") || str_is(&key, "purple") {
        Some(AnsiColor::Magenta)
    } else if str_is(&key, "white") {
        Some(AnsiColor::White)
    } else if str_is(&key, "black") {
        Some(AnsiColor::Black)
    } else {
        None
    }
}

} // verus!
