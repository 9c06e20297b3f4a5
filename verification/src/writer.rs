//! The console writer: cursor and colours over one display buffer.

use core::fmt::Write;
use vstd::prelude::*;
use vstd::string::{is_ascii_spec_bytes, StringSliceAdditionalSpecFns};
use crate::buffer::{is_grid, Buffer, BUFFER_HEIGHT, BUFFER_WIDTH};
use crate::cell::{ScreenChar, BLANK};
use crate::color::{Color, ColorCode};
use crate::console::{sanitize, Console, NEWLINE, PLACEHOLDER};
use crate::laws::{lemma_write_string_concat, lemma_write_string_single};

verus! {

/// The character code of `[`.
const LEFT_BRACKET: u8 = 0x5b;

/// The character code of `]`.
const RIGHT_BRACKET: u8 = 0x5d;

/// Writes bytes as glyphs to the bottom row of the display, wrapping at the
/// right edge and scrolling the display up at the end of each line.
pub struct Writer {
    column_position: usize,
    color_code: ColorCode,
    buffer: Buffer,
}

impl View for Writer {
    type V = Console;

    closed spec fn view(&self) -> Console {
        Console {
            column: self.column_position as int,
            color: self.color_code,
            grid: self.buffer@,
        }
    }
}

impl Writer {
    /// The grid of a writer always has the shape of the display.
    pub proof fn lemma_grid_shape(&self)
        ensures
            is_grid(self@.grid),
    {
        self.buffer.lemma_view_is_grid();
    }

    /// A writer over `buffer` that writes yellow on black, with the cursor at
    /// column 0. The buffer is left as it is.
    pub fn new(buffer: Buffer) -> (writer: Writer)
        ensures
            writer@ == Console::fresh(buffer@),
            writer@.wf(),
    {
        proof {
            buffer.lemma_view_is_grid();
        }
        Writer {
            column_position: 0,
            color_code: ColorCode::new(Color::Yellow, Color::Black),
            buffer,
        }
    }

    /// The column of the cursor in the bottom row. It is `BUFFER_WIDTH` when
    /// that row is full.
    pub fn column_position(&self) -> (column: usize)
        ensures
            column == self@.column,
    {
        self.column_position
    }

    /// The colours in which the writer stores glyphs.
    pub fn color_code(&self) -> (color: ColorCode)
        ensures
            color == self@.color,
    {
        self.color_code
    }

    /// The display that the writer writes to.
    pub fn buffer(&self) -> (buffer: &Buffer)
        ensures
            buffer@ == self@.grid,
    {
        &self.buffer
    }

    /// Writes one byte. A newline scrolls the display and stores no glyph.
    /// Any other byte is stored, in the writer's colours, at the cursor in the
    /// bottom row, after a scroll if that row is full, and the cursor advances
    /// by one column.
    pub fn write_byte(&mut self, byte: u8)
        ensures
            final(self)@ == old(self)@.write_byte(byte),
            final(self)@.wf(),
    {
        match byte {
            NEWLINE => self.new_line(),
            byte => {
                if self.column_position >= BUFFER_WIDTH {
                    self.new_line();
                }
                let row: usize = BUFFER_HEIGHT - 1;
                let col: usize = self.column_position;
                let color_code = self.color_code;
                self.buffer.write(row, col, ScreenChar { ascii_character: byte, color_code });
                self.column_position += 1;
                proof {
                    self.buffer.lemma_view_is_grid();
                }
            },
        }
    }

    /// Scrolls the display: every row moves up by one, the top row is lost,
    /// the bottom row is cleared and the cursor returns to column 0.
    pub fn new_line(&mut self)
        ensures
            final(self)@ == old(self)@.new_line(),
            final(self)@.wf(),
    {
        proof {
            self.buffer.lemma_view_is_grid();
        }
        for row in 1..BUFFER_HEIGHT
            invariant
                self.column_position == old(self).column_position,
                self.color_code == old(self).color_code,
                is_grid(self.buffer@),
                is_grid(old(self).buffer@),
                forall|r: int| 0 <= r < row - 1 ==> self.buffer@[r] == old(self).buffer@[r + 1],
                forall|r: int|
                    row - 1 <= r < BUFFER_HEIGHT ==> self.buffer@[r] == old(self).buffer@[r],
        {
            let above: usize = row - 1;
            let ghost before = self.buffer@;
            for col in 0..BUFFER_WIDTH
                invariant
                    above + 1 == row < BUFFER_HEIGHT,
                    self.column_position == old(self).column_position,
                    self.color_code == old(self).color_code,
                    is_grid(self.buffer@),
                    is_grid(before),
                    forall|r: int|
                        0 <= r < BUFFER_HEIGHT && r != above ==> self.buffer@[r] == before[r],
                    forall|c: int|
                        0 <= c < col ==> self.buffer@[above as int][c] == before[row as int][c],
                    forall|c: int|
                        col <= c < BUFFER_WIDTH ==> self.buffer@[above as int][c]
                            == before[above as int][c],
            {
                let character: ScreenChar = self.buffer.read(row, col);
                self.buffer.write(above, col, character);
            }
            proof {
                assert(self.buffer@[above as int] =~= before[row as int]);
                assert forall|r: int| 0 <= r < row implies self.buffer@[r] == old(self).buffer@[r
                    + 1] by {
                    if r < above {
                        assert(self.buffer@[r] == before[r]);
                    }
                }
            }
        }
        self.clear_row(BUFFER_HEIGHT - 1);
        self.column_position = 0;
        proof {
            assert(self@.grid =~= old(self)@.new_line().grid);
        }
    }

    /// Writes the bytes of `s` in order, as raw bytes. A byte that is
    /// printable or a newline is written as it is; any other byte is written
    /// as the placeholder.
    pub fn write_string(&mut self, s: &str)
        ensures
            final(self)@ == old(self)@.write_string(s.spec_bytes()),
            old(self)@.wf() ==> final(self)@.wf(),
    {
        let bytes = s.as_bytes();
        assert(bytes@.take(0) =~= Seq::<u8>::empty());
        for i in 0..bytes.len()
            invariant
                bytes@ == s.spec_bytes(),
                self@ == old(self)@.write_string(bytes@.take(i as int)),
                old(self)@.wf() ==> self@.wf(),
        {
            let byte: u8 = bytes[i];
            proof {
                let done = bytes@.take(i as int).map_values(|b: u8| sanitize(b));
                let next = bytes@.take(i + 1).map_values(|b: u8| sanitize(b));
                assert(next.drop_last() =~= done);
                assert(next.last() == sanitize(byte));
            }
            match byte {
                0x20..=0x7e | NEWLINE => self.write_byte(byte),
                _ => self.write_byte(PLACEHOLDER),
            }
        }
        assert(bytes@.take(bytes@.len() as int) =~= bytes@);
    }

    /// Overwrites every cell of `row` with a blank cell in the writer's
    /// colours.
    pub fn clear_row(&mut self, row: usize)
        requires
            row < BUFFER_HEIGHT,
        ensures
            final(self)@ == old(self)@.clear_row(row as int),
            old(self)@.wf() ==> final(self)@.wf(),
    {
        let blank = ScreenChar { ascii_character: BLANK, color_code: self.color_code };
        proof {
            self.buffer.lemma_view_is_grid();
        }
        for col in 0..BUFFER_WIDTH
            invariant
                row < BUFFER_HEIGHT,
                blank == ScreenChar::blank(old(self).color_code),
                self.column_position == old(self).column_position,
                self.color_code == old(self).color_code,
                is_grid(self.buffer@),
                forall|r: int|
                    0 <= r < BUFFER_HEIGHT && r != row ==> self.buffer@[r] == old(self).buffer@[r],
                forall|c: int| 0 <= c < col ==> self.buffer@[row as int][c] == blank,
        {
            self.buffer.write(row, col, blank);
        }
        proof {
            assert(self.buffer@[row as int] =~= old(self)@.blank_row());
            assert(self.buffer@ =~= old(self)@.clear_row(row as int).grid);
        }
    }
}

/// Sets up a writer over `buffer` and prints the introduction of the system
/// on the bottom row: `[INFO] OS by Kjetil Indrehus`, yellow on black.
pub fn print_introduction(buffer: Buffer) -> (writer: Writer)
    ensures
        writer@ == Console::fresh(buffer@).write_string(
            "[INFO] OS by Kjetil Indrehus".spec_bytes(),
        ),
        writer@.wf(),
{
    let mut writer = Writer::new(buffer);
    writer.write_byte(LEFT_BRACKET);
    writer.write_string("INFO");
    writer.write_byte(RIGHT_BRACKET);
    writer.write_str(" OS by Kjetil Indrehus").unwrap();
    proof {
        let start = Console::fresh(buffer@);
        let open = seq![LEFT_BRACKET];
        let info = "INFO".spec_bytes();
        let close = seq![RIGHT_BRACKET];
        let rest = " OS by Kjetil Indrehus".spec_bytes();
        let all = "[INFO] OS by Kjetil Indrehus".spec_bytes();
        reveal_strlit("INFO");
        reveal_strlit(" OS by Kjetil Indrehus");
        reveal_strlit("[INFO] OS by Kjetil Indrehus");
        is_ascii_spec_bytes("INFO");
        is_ascii_spec_bytes(" OS by Kjetil Indrehus");
        is_ascii_spec_bytes("[INFO] OS by Kjetil Indrehus");
        assert(all =~= open + info + close + rest);
        lemma_write_string_concat(start, open + info + close, rest);
        lemma_write_string_concat(start, open + info, close);
        lemma_write_string_concat(start, open, info);
        lemma_write_string_single(start, LEFT_BRACKET);
        lemma_write_string_single(start.write_string(open + info), RIGHT_BRACKET);
    }
    writer
}

/// `core::fmt::Error`, the error of formatted output. The writer never
/// returns one; the type stands here because `core::fmt::Result` names it.
#[verifier::external_type_specification]
#[verifier::external_body]
pub struct ExFmtError(core::fmt::Error);

/// Formatted output goes through `write_string`, and never fails.
impl Write for Writer {
    fn write_str(&mut self, s: &str) -> (result: core::fmt::Result)
        ensures
            result is Ok,
            final(self)@ == old(self)@.write_string(s.spec_bytes()),
            old(self)@.wf() ==> final(self)@.wf(),
    {
        self.write_string(s);
        Ok(())
    }
}

} // verus!
