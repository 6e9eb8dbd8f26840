//! Helpers for showing changes to the user.

pub mod diff;
pub mod diff_styles;
pub mod style_helpers;
