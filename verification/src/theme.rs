//! Color schemes, semantic glass roles, and the theme object shared by the
//! UI library and compositor adapters.

use vstd::prelude::*;

verus! {

/// The resolved light or dark tone used to render an application window.
#[derive(Clone, Copy, Debug, PartialEq, Eq, Structural)]
pub enum UiColorScheme {
    Light,
    Dark,
}

impl Default for UiColorScheme {
    fn default() -> (r: Self)
        ensures
            r == UiColorScheme::Dark,
    {
        UiColorScheme::Dark
    }
}

/// The tone a system theme reports: light, dark, or no specific tone.
#[derive(Clone, Copy, Debug, PartialEq, Eq, Structural)]
pub enum ThemeMode {
    /// No specific tone.
    Unspecified,
    /// Themes with light tones.
    Light,
    /// Themes with dark tones.
    Dark,
}

impl UiColorScheme {
    /// Resolves a system theme mode to a concrete color scheme; a mode
    /// without a specific tone resolves to dark.
    pub fn from_mode(mode: ThemeMode) -> (r: Self)
        ensures
            r == (if mode == ThemeMode::Light {
                UiColorScheme::Light
            } else {
                UiColorScheme::Dark
            }),
    {
        match mode {
            ThemeMode::Light => UiColorScheme::Light,
            ThemeMode::Dark | ThemeMode::Unspecified => UiColorScheme::Dark,
        }
    }
}

/// A semantic role whose material can vary with the active color scheme.
#[derive(Clone, Copy, Debug, PartialEq, Eq, Structural)]
pub enum GlassRole {
    /// A full-height split-view surface that reveals and heavily blurs the
    /// desktop backdrop.
    Sidebar,
    Toolbar,
    InputField,
    /// Compatibility role for search-specific input fields.
    SearchField,
    FloatingControl,
}

/// Theme object used by the UI library and compositor adapters.
#[derive(Clone, Copy, Debug, PartialEq, Eq, Structural)]
pub struct UiTheme {
    scheme: UiColorScheme,
}

impl Default for UiTheme {
    fn default() -> (r: Self)
        ensures
            r.spec_scheme() == UiColorScheme::Dark,
    {
        UiTheme { scheme: UiColorScheme::Dark }
    }
}

impl UiTheme {
    /// The color scheme this theme renders with.
    pub closed spec fn spec_scheme(self) -> UiColorScheme {
        self.scheme
    }

    pub fn new(scheme: UiColorScheme) -> (r: Self)
        ensures
            r.spec_scheme() == scheme,
    {
        UiTheme { scheme }
    }

    pub fn light() -> (r: Self)
        ensures
            r.spec_scheme() == UiColorScheme::Light,
    {
        Self::new(UiColorScheme::Light)
    }

    pub fn dark() -> (r: Self)
        ensures
            r.spec_scheme() == UiColorScheme::Dark,
    {
        Self::new(UiColorScheme::Dark)
    }

    pub fn scheme(self) -> (r: UiColorScheme)
        ensures
            r == self.spec_scheme(),
    {
        self.scheme
    }
}

/// A theme is determined by its scheme: two themes with the same scheme are
/// equal.
pub proof fn lemma_theme_is_its_scheme(a: UiTheme, b: UiTheme)
    ensures
        a.spec_scheme() == b.spec_scheme() ==> a == b,
{
}

} // verus!
