//! The mathematical model of the console: what the display shows and where
//! the cursor stands, and how each operation of the writer changes that.

use vstd::prelude::*;
use crate::buffer::{is_grid, BUFFER_HEIGHT, BUFFER_WIDTH};
use crate::cell::ScreenChar;
use crate::color::{Color, ColorCode};

verus! {

/// The character code that ends a line.
pub const NEWLINE: u8 = 0x0a;

/// The character code shown in place of a byte that has no glyph.
pub const PLACEHOLDER: u8 = 0xfe;

/// Whether `byte` is a printable ASCII character.
pub open spec fn is_printable(byte: u8) -> bool {
    0x20 <= byte <= 0x7e
}

/// The byte that is written for `byte` of a string: the byte itself if it is
/// printable or a newline, the placeholder otherwise.
pub open spec fn sanitize(byte: u8) -> u8 {
    if is_printable(byte) || byte == NEWLINE {
        byte
    } else {
        PLACEHOLDER
    }
}

/// The state of a console: the cursor column, the colours in which glyphs are
/// written, and the glyph cells of the display, row by row from the top.
pub struct Console {
    pub column: int,
    pub color: ColorCode,
    pub grid: Seq<Seq<ScreenChar>>,
}

impl Console {
    /// The grid has the shape of the display and the cursor column lies in
    /// `0..=BUFFER_WIDTH`.
    pub open spec fn wf(self) -> bool {
        &&& is_grid(self.grid)
        &&& 0 <= self.column <= BUFFER_WIDTH
    }

    /// The console of a writer that has just been set up over a display that
    /// shows `grid`: the cursor at column 0, writing yellow on black.
    pub open spec fn fresh(grid: Seq<Seq<ScreenChar>>) -> Console {
        Console { column: 0, color: ColorCode::encode(Color::Yellow, Color::Black), grid }
    }

    /// A row of blank cells in the console's colours.
    pub open spec fn blank_row(self) -> Seq<ScreenChar> {
        Seq::new(BUFFER_WIDTH as nat, |col: int| ScreenChar::blank(self.color))
    }

    /// The console after `row` has been overwritten with blank cells.
    pub open spec fn clear_row(self, row: int) -> Console {
        Console { grid: self.grid.update(row, self.blank_row()), ..self }
    }

    /// The console after a scroll: every row has moved up by one, the top row
    /// is gone, the bottom row is blank and the cursor is at column 0.
    pub open spec fn new_line(self) -> Console {
        Console {
            column: 0,
            color: self.color,
            grid: Seq::new(
                BUFFER_HEIGHT as nat,
                |row: int|
                    if row + 1 < BUFFER_HEIGHT {
                        self.grid[row + 1]
                    } else {
                        self.blank_row()
                    },
            ),
        }
    }

    /// The console after the glyph of `byte` has been stored at the cursor, in
    /// the bottom row, and the cursor has advanced by one.
    pub open spec fn put(self, byte: u8) -> Console {
        Console {
            column: self.column + 1,
            color: self.color,
            grid: self.grid.update(
                BUFFER_HEIGHT - 1,
                self.grid[BUFFER_HEIGHT - 1].update(
                    self.column,
                    ScreenChar { ascii_character: byte, color_code: self.color },
                ),
            ),
        }
    }

    /// The console after the glyphs of `bytes` have been stored side by side
    /// in the bottom row, from the cursor on, and the cursor has advanced by
    /// their number.
    pub open spec fn fill(self, bytes: Seq<u8>) -> Console {
        Console {
            column: self.column + bytes.len(),
            color: self.color,
            grid: self.grid.update(
                BUFFER_HEIGHT - 1,
                Seq::new(
                    BUFFER_WIDTH as nat,
                    |col: int|
                        if self.column <= col < self.column + bytes.len() {
                            ScreenChar {
                                ascii_character: bytes[col - self.column],
                                color_code: self.color,
                            }
                        } else {
                            self.grid[BUFFER_HEIGHT - 1][col]
                        },
                ),
            ),
        }
    }

    /// The console after `byte` has been written: a newline scrolls; any other
    /// byte is stored at the cursor, after a scroll if the bottom row is full.
    pub open spec fn write_byte(self, byte: u8) -> Console {
        if byte == NEWLINE {
            self.new_line()
        } else if self.column >= BUFFER_WIDTH {
            self.new_line().put(byte)
        } else {
            self.put(byte)
        }
    }

    /// The console after each of `bytes` has been written in turn.
    pub open spec fn write_bytes(self, bytes: Seq<u8>) -> Console
        decreases bytes.len(),
    {
        if bytes.len() == 0 {
            self
        } else {
            self.write_bytes(bytes.drop_last()).write_byte(bytes.last())
        }
    }

    /// The console after the bytes of a string have been written: each byte
    /// that is neither printable nor a newline is replaced by the placeholder.
    pub open spec fn write_string(self, bytes: Seq<u8>) -> Console {
        self.write_bytes(bytes.map_values(|byte: u8| sanitize(byte)))
    }
}

} // verus!
