//! A simple theme: a handful of named colors, meant to be bound into the
//! registry as a shared resource. Applications with other styling needs
//! define their own structure and bind that instead.

use vstd::prelude::*;
use crate::runes::Color;

verus! {

/// General styling information for an application. Nothing in the
/// toolkit depends on it; it is a convenience resource.
#[derive(Clone, Copy, Debug)]
pub struct Theme {
    pub bg_primary: Color,
    pub bg_secondary: Color,
    pub bg_tertiary: Color,
    pub bg_selection: Color,
    pub fg_selection: Color,
    pub fg: Color,
    pub accent: Color,
}

impl Default for Theme {
    /// A dark palette: three shades of blue-grey behind white text, with
    /// a purple selection and accent.
    fn default() -> (r: Theme)
        ensures
            r.bg_primary == (Color::Rgb { r: 36, g: 39, b: 58 }),
            r.bg_secondary == (Color::Rgb { r: 20, g: 22, b: 30 }),
            r.bg_tertiary == (Color::Rgb { r: 76, g: 79, b: 98 }),
            r.bg_selection == (Color::Rgb { r: 60, g: 0, b: 60 }),
            r.fg_selection == Color::White,
            r.fg == Color::White,
            r.accent == (Color::Rgb { r: 150, g: 0, b: 150 }),
    {
        Theme {
            bg_primary: Color::Rgb { r: 36, g: 39, b: 58 },
            bg_secondary: Color::Rgb { r: 20, g: 22, b: 30 },
            bg_tertiary: Color::Rgb { r: 76, g: 79, b: 98 },
            bg_selection: Color::Rgb { r: 60, g: 0, b: 60 },
            fg_selection: Color::White,
            fg: Color::White,
            accent: Color::Rgb { r: 150, g: 0, b: 150 },
        }
    }
}

} // verus!
