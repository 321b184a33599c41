//! Colors and text styles of the character grid.
use vstd::prelude::*;

verus! {

/// A terminal color: the named palette entries the renderer uses, or a 24-bit value.
#[derive(Clone, Copy, Debug, PartialEq, Eq, Structural)]
pub enum Color {
    Reset,
    Black,
    Red,
    Green,
    Yellow,
    Blue,
    Magenta,
    Cyan,
    Gray,
    DarkGray,
    White,
    Rgb(u8, u8, u8),
}

/// Foreground and background colors plus the text modifiers the renderer sets.
#[derive(Clone, Copy, Debug, PartialEq, Eq, Structural)]
pub struct Style {
    pub fg: Option<Color>,
    pub bg: Option<Color>,
    pub bold: bool,
    pub rapid_blink: bool,
    pub dim: bool,
}

/// A style with only a foreground color.
pub open spec fn fg_style(c: Color) -> Style {
    Style { fg: Some(c), bg: None, bold: false, rapid_blink: false, dim: false }
}

/// A style with only a background color.
pub open spec fn bg_style(c: Color) -> Style {
    Style { fg: None, bg: Some(c), bold: false, rapid_blink: false, dim: false }
}

/// A bold style with a foreground color.
pub open spec fn bold_style(c: Color) -> Style {
    Style { fg: Some(c), bg: None, bold: true, rapid_blink: false, dim: false }
}

/// A rapidly blinking style with a foreground color.
pub open spec fn blink_style(c: Color) -> Style {
    Style { fg: Some(c), bg: None, bold: false, rapid_blink: true, dim: false }
}

impl Style {
    /// The style that sets nothing.
    pub fn plain() -> (r: Style)
        ensures
            r == (Style { fg: None, bg: None, bold: false, rapid_blink: false, dim: false }),
    {
        Style { fg: None, bg: None, bold: false, rapid_blink: false, dim: false }
    }

    pub fn fg(c: Color) -> (r: Style)
        ensures
            r == fg_style(c),
    {
        Style { fg: Some(c), bg: None, bold: false, rapid_blink: false, dim: false }
    }

    pub fn bg(c: Color) -> (r: Style)
        ensures
            r == bg_style(c),
    {
        Style { fg: None, bg: Some(c), bold: false, rapid_blink: false, dim: false }
    }

    pub fn bold(c: Color) -> (r: Style)
        ensures
            r == bold_style(c),
    {
        Style { fg: Some(c), bg: None, bold: true, rapid_blink: false, dim: false }
    }

    pub fn blink(c: Color) -> (r: Style)
        ensures
            r == blink_style(c),
    {
        Style { fg: Some(c), bg: None, bold: false, rapid_blink: true, dim: false }
    }
}

} // verus!
