//! The settings of the window: the color scheme that the chosen style asks for.

use vstd::prelude::*;

use crate::text::same_text;

verus! {

/// The color scheme of the application.
#[derive(PartialEq, Eq, Structural, Clone, Copy, Debug)]
pub enum ColorScheme {
    /// Follow the system.
    Default,
    ForceLight,
    ForceDark,
}

/// The color scheme of a style setting: "light" and "dark" force theirs,
/// "system" and anything else follow the system.
pub open spec fn scheme_of(style: Seq<char>) -> ColorScheme {
    if style == "light"@ {
        ColorScheme::ForceLight
    } else if style == "dark"@ {
        ColorScheme::ForceDark
    } else {
        ColorScheme::Default
    }
}

/// The color scheme that the style setting asks for.
pub fn color_scheme_for(style: &str) -> (r: ColorScheme)
    ensures
        r == scheme_of(style@),
{
    proof {
        reveal_strlit("system");
        reveal_strlit("light");
        reveal_strlit("dark");
        assert("system"@[0] != "light"@[0]);
        assert("system"@[0] != "dark"@[0]);
    }
    if same_text(style, "system") {
        ColorScheme::Default
    } else if same_text(style, "light") {
        ColorScheme::ForceLight
    } else if same_text(style, "dark") {
        ColorScheme::ForceDark
    } else {
        ColorScheme::Default
    }
}

} // verus!
