//! The colors in which diffs are shown.

use anstyle::{AnsiColor, RgbColor};
use vstd::prelude::*;

verus! {

/// The colors of a diff: foreground and background of added and removed
/// lines, and the color of headers.
#[derive(Debug, Clone, Copy)]
pub struct DiffColorPalette {
    pub added_fg: RgbColor,
    pub added_bg: RgbColor,
    pub removed_fg: RgbColor,
    pub removed_bg: RgbColor,
    pub header_color: AnsiColor,
}

impl DiffColorPalette {
    /// Light green on dark green for additions, light red on dark red for
    /// removals, cyan for headers.
    pub fn default() -> (r: Self)
        ensures
            r.added_fg == RgbColor(200, 255, 200),
            r.added_bg == RgbColor(0, 64, 0),
            r.removed_fg == RgbColor(255, 200, 200),
            r.removed_bg == RgbColor(64, 0, 0),
            r.header_color == AnsiColor::Cyan,
    {
        DiffColorPalette {
            added_fg: RgbColor(200, 255, 200),
            added_bg: RgbColor(0, 64, 0),
            removed_fg: RgbColor(255, 200, 200),
            removed_bg: RgbColor(64, 0, 0),
            header_color: AnsiColor::Cyan,
        }
    }
}

} // verus!
