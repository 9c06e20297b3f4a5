//! The sixteen hardware colours and the packed attribute byte.

use vstd::prelude::*;

verus! {

/// One of the sixteen colours of the text-mode palette.
#[allow(dead_code)]
#[derive(Debug, Clone, Copy, PartialEq, Eq, Structural)]
pub enum Color {
    Black,
    Blue,
    Green,
    Cyan,
    Red,
    Magenta,
    Brown,
    LightGray,
    DarkGray,
    LightBlue,
    LightGreen,
    LightCyan,
    LightRed,
    Pink,
    Yellow,
    White,
}

impl Color {
    /// The four-bit hardware code of the colour.
    pub open spec fn spec_code(self) -> u8 {
        match self {
            Color::Black => 0,
            Color::Blue => 1,
            Color::Green => 2,
            Color::Cyan => 3,
            Color::Red => 4,
            Color::Magenta => 5,
            Color::Brown => 6,
            Color::LightGray => 7,
            Color::DarkGray => 8,
            Color::LightBlue => 9,
            Color::LightGreen => 10,
            Color::LightCyan => 11,
            Color::LightRed => 12,
            Color::Pink => 13,
            Color::Yellow => 14,
            Color::White => 15,
        }
    }

    /// The four-bit hardware code of the colour.
    #[verifier::when_used_as_spec(spec_code)]
    pub fn code(self) -> (code: u8)
        ensures
            code == self.spec_code(),
            code <= 15,
    {
        match self {
            Color::Black => 0,
            Color::Blue => 1,
            Color::Green => 2,
            Color::Cyan => 3,
            Color::Red => 4,
            Color::Magenta => 5,
            Color::Brown => 6,
            Color::LightGray => 7,
            Color::DarkGray => 8,
            Color::LightBlue => 9,
            Color::LightGreen => 10,
            Color::LightCyan => 11,
            Color::LightRed => 12,
            Color::Pink => 13,
            Color::Yellow => 14,
            Color::White => 15,
        }
    }
}

/// The attribute byte of a glyph cell: the background colour in the high
/// nibble, the foreground colour in the low nibble.
#[derive(Debug, Clone, Copy, PartialEq, Eq, Structural)]
pub struct ColorCode(pub u8);

impl ColorCode {
    /// The attribute byte that selects `foreground` on `background`.
    pub open spec fn encode(foreground: Color, background: Color) -> ColorCode {
        ColorCode((background.code() * 16 + foreground.code()) as u8)
    }

    /// Packs a foreground and a background colour into one attribute byte.
    pub fn new(foreground: Color, background: Color) -> (code: ColorCode)
        ensures
            code == ColorCode::encode(foreground, background),
            code.0 == background.code() * 16 + foreground.code(),
            code.0 == (background.code() << 4) | foreground.code(),
            code.0 >> 4 == background.code(),
            code.0 & 0x0f == foreground.code(),
    {
        let fg: u8 = foreground.code();
        let bg: u8 = background.code();
        assert((bg << 4) | fg == bg * 16 + fg && ((bg << 4) | fg) >> 4 == bg && ((bg << 4) | fg) & 0x0f
            == fg) by (bit_vector)
            requires
                fg <= 15,
                bg <= 15,
        ;
        ColorCode((bg << 4) | fg)
    }
}

} // verus!
