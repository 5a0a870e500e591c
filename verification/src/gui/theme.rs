use vstd::prelude::*;

use crate::text::{contains_seq, text_contains};

verus! {

/// Light or dark appearance.
#[derive(Debug, Clone, Copy, PartialEq, Eq, Structural)]
pub enum ThemeMode {
    /// Light appearance.
    Light,
    /// Dark appearance.
    Dark,
}

/// The theme that the output of the registry query for
/// `AppsUseLightTheme` indicates: a '1' means light, otherwise a '0' means
/// dark; anything else defaults to light.
pub open spec fn theme_of_registry_output(out: Seq<char>) -> ThemeMode {
    if contains_seq(out, "0x1"@) || contains_seq(out, "1"@) {
        ThemeMode::Light
    } else if contains_seq(out, "0x0"@) || contains_seq(out, "0"@) {
        ThemeMode::Dark
    } else {
        ThemeMode::Light
    }
}

/// Reads the theme from the output of the registry query (see
/// `theme_of_registry_output`).
pub fn theme_from_registry_output(out: &str) -> (t: ThemeMode)
    ensures
        t == theme_of_registry_output(out@),
{
    if text_contains(out, "0x1") || text_contains(out, "1") {
        ThemeMode::Light
    } else if text_contains(out, "0x0") || text_contains(out, "0") {
        ThemeMode::Dark
    } else {
        ThemeMode::Light
    }
}

} // verus!
