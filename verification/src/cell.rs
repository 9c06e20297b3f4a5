//! The glyph cell: one character position of the display.

use vstd::prelude::*;
use crate::color::ColorCode;

verus! {

/// The character code of the space glyph, which fills a cleared cell.
pub const BLANK: u8 = 0x20;

/// One character position of the display: a character code and the attribute
/// byte it is shown with.
///
/// In display memory a cell takes two bytes: the character code first, the
/// attribute byte second.
#[derive(Debug, Clone, Copy, PartialEq, Eq, Structural)]
pub struct ScreenChar {
    pub ascii_character: u8,
    pub color_code: ColorCode,
}

impl ScreenChar {
    /// The space glyph in the given colours.
    pub open spec fn blank(color_code: ColorCode) -> ScreenChar {
        ScreenChar { ascii_character: BLANK, color_code }
    }

    /// The two bytes of the cell as they lie in display memory.
    pub open spec fn spec_to_bytes(self) -> Seq<u8> {
        seq![self.ascii_character, self.color_code.0]
    }

    /// The cell that two bytes of display memory show.
    pub open spec fn spec_from_bytes(bytes: Seq<u8>) -> ScreenChar {
        ScreenChar { ascii_character: bytes[0], color_code: ColorCode(bytes[1]) }
    }

    /// The two bytes of the cell as they lie in display memory: byte 0 is the
    /// character code, byte 1 the attribute byte.
    pub fn to_bytes(self) -> (bytes: [u8; 2])
        ensures
            bytes@ == self.spec_to_bytes(),
            bytes@[0] == self.ascii_character,
            bytes@[1] == self.color_code.0,
            ScreenChar::spec_from_bytes(bytes@) == self,
    {
        [self.ascii_character, self.color_code.0]
    }

    /// The cell that two bytes of display memory show.
    pub fn from_bytes(bytes: [u8; 2]) -> (cell: ScreenChar)
        ensures
            cell == ScreenChar::spec_from_bytes(bytes@),
            cell.ascii_character == bytes@[0],
            cell.color_code.0 == bytes@[1],
            cell.spec_to_bytes() == bytes@,
    {
        ScreenChar { ascii_character: bytes[0], color_code: ColorCode(bytes[1]) }
    }
}

} // verus!
