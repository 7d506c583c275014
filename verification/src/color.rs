//! Terminal colors.

use vstd::prelude::*;

verus! {

/// A terminal color: one of the named ANSI colors, an 8-bit palette index,
/// a 24-bit RGB value, or `Transparent` (keep whatever is underneath).
#[derive(Debug, Clone, Copy, PartialEq, Eq, Structural)]
pub enum Color {
    Black,
    Red,
    Green,
    Yellow,
    Blue,
    Magenta,
    Cyan,
    White,
    DarkGray,
    LightRed,
    LightGreen,
    LightYellow,
    LightBlue,
    LightMagenta,
    LightCyan,
    LightGray,
    AnsiValue(u8),
    Rgb { r: u8, g: u8, b: u8 },
    Transparent,
}

/// A foreground / background color pair.
#[derive(Debug, Clone, Copy, PartialEq, Eq, Structural)]
pub struct ColorPair {
    pub fg: Color,
    pub bg: Color,
}

impl ColorPair {
    /// Creates a color pair from a foreground and a background color.
    pub fn new(fg: Color, bg: Color) -> (r: Self)
        ensures
            r.fg == fg,
            r.bg == bg,
    {
        ColorPair { fg, bg }
    }

    /// Green on black, used for success messages.
    pub fn success() -> (r: Self)
        ensures
            r == (ColorPair { fg: Color::Green, bg: Color::Black }),
    {
        ColorPair { fg: Color::Green, bg: Color::Black }
    }

    /// Yellow on black, used for warnings.
    pub fn warning() -> (r: Self)
        ensures
            r == (ColorPair { fg: Color::Yellow, bg: Color::Black }),
    {
        ColorPair { fg: Color::Yellow, bg: Color::Black }
    }

    /// Red on black, used for errors.
    pub fn error() -> (r: Self)
        ensures
            r == (ColorPair { fg: Color::Red, bg: Color::Black }),
    {
        ColorPair { fg: Color::Red, bg: Color::Black }
    }

    /// Blue on black, used for informational messages.
    pub fn info() -> (r: Self)
        ensures
            r == (ColorPair { fg: Color::Blue, bg: Color::Black }),
    {
        ColorPair { fg: Color::Blue, bg: Color::Black }
    }
}

} // verus!
