//! Laws of the console model.
//!
//! Each law is proved of every console state. Since every operation of the
//! writer is proved to follow the model, the laws hold of the writer too.

use vstd::prelude::*;
use crate::buffer::{is_grid, BUFFER_HEIGHT, BUFFER_WIDTH};
use crate::cell::ScreenChar;
use crate::console::{is_printable, sanitize, Console, NEWLINE, PLACEHOLDER};

verus! {

/// A scroll leaves a well-formed console, whatever the cursor column was.
pub proof fn lemma_new_line_wf(s: Console)
    requires
        is_grid(s.grid),
    ensures
        s.new_line().wf(),
{
}

/// Clearing a row of the display keeps the console well-formed.
pub proof fn lemma_clear_row_wf(s: Console, row: int)
    requires
        s.wf(),
        0 <= row < BUFFER_HEIGHT,
    ensures
        s.clear_row(row).wf(),
{
}

/// Writing a byte keeps the console well-formed: the cursor column never
/// leaves `0..=BUFFER_WIDTH`.
pub proof fn lemma_write_byte_wf(s: Console, byte: u8)
    requires
        s.wf(),
    ensures
        s.write_byte(byte).wf(),
{
}

/// Writing any sequence of bytes keeps the console well-formed.
pub proof fn lemma_write_bytes_wf(s: Console, bytes: Seq<u8>)
    requires
        s.wf(),
    ensures
        s.write_bytes(bytes).wf(),
    decreases bytes.len(),
{
    if bytes.len() > 0 {
        lemma_write_bytes_wf(s, bytes.drop_last());
        lemma_write_byte_wf(s.write_bytes(bytes.drop_last()), bytes.last());
    }
}

/// Writing any string keeps the console well-formed.
pub proof fn lemma_write_string_wf(s: Console, bytes: Seq<u8>)
    requires
        s.wf(),
    ensures
        s.write_string(bytes).wf(),
{
    lemma_write_bytes_wf(s, bytes.map_values(|byte: u8| sanitize(byte)));
}

/// Writing `first` and then `second` is writing their concatenation.
pub proof fn lemma_write_bytes_concat(s: Console, first: Seq<u8>, second: Seq<u8>)
    ensures
        s.write_bytes(first + second) == s.write_bytes(first).write_bytes(second),
    decreases second.len(),
{
    if second.len() == 0 {
        assert(first + second =~= first);
    } else {
        assert((first + second).drop_last() =~= first + second.drop_last());
        lemma_write_bytes_concat(s, first, second.drop_last());
    }
}

/// Writing one byte as a sequence is writing that byte.
pub proof fn lemma_write_bytes_single(s: Console, byte: u8)
    ensures
        s.write_bytes(seq![byte]) == s.write_byte(byte),
{
    assert(seq![byte].drop_last() =~= Seq::<u8>::empty());
    assert(s.write_bytes(Seq::<u8>::empty()) == s);
}

/// Writing a string of one byte is writing that byte, sanitized.
pub proof fn lemma_write_string_single(s: Console, byte: u8)
    ensures
        s.write_string(seq![byte]) == s.write_byte(sanitize(byte)),
{
    assert(seq![byte].map_values(|b: u8| sanitize(b)) =~= seq![sanitize(byte)]);
    lemma_write_bytes_single(s, sanitize(byte));
}

/// Writing the string `first` and then the string `second` is writing their
/// concatenation.
pub proof fn lemma_write_string_concat(s: Console, first: Seq<u8>, second: Seq<u8>)
    ensures
        s.write_string(first + second) == s.write_string(first).write_string(second),
{
    let f = |byte: u8| sanitize(byte);
    assert((first + second).map_values(f) =~= first.map_values(f) + second.map_values(f));
    lemma_write_bytes_concat(s, first.map_values(f), second.map_values(f));
}

/// A string of printable bytes and newlines is written byte for byte.
pub proof fn lemma_write_string_printable(s: Console, bytes: Seq<u8>)
    requires
        forall|i: int| 0 <= i < bytes.len() ==> is_printable(bytes[i]) || bytes[i] == NEWLINE,
    ensures
        s.write_string(bytes) == s.write_bytes(bytes),
{
    assert(bytes.map_values(|byte: u8| sanitize(byte)) =~= bytes);
}

/// Sanitization: a byte of a string that is neither printable nor a newline
/// is written as the placeholder. The cell at the cursor (column 0 of the
/// bottom row, after a scroll, if that row was full) then holds the
/// placeholder in the console's colours, not the byte.
pub proof fn lemma_unprintable_byte_is_replaced(s: Console, byte: u8)
    requires
        s.wf(),
        !is_printable(byte),
        byte != NEWLINE,
    ensures
        s.write_string(seq![byte]) == s.write_byte(PLACEHOLDER),
        ({
            let col = if s.column >= BUFFER_WIDTH {
                0
            } else {
                s.column
            };
            &&& s.write_string(seq![byte]).column == col + 1
            &&& s.write_string(seq![byte]).grid[BUFFER_HEIGHT - 1][col] == (ScreenChar {
                ascii_character: PLACEHOLDER,
                color_code: s.color,
            })
        }),
{
    lemma_write_string_single(s, byte);
}

/// Newline law: writing a newline stores no glyph. It is exactly a scroll:
/// the cursor returns to column 0, the bottom row is blank, and the row that
/// held the cursor, with the cell at the cursor, has moved up by one as it
/// was.
pub proof fn lemma_newline_stores_no_glyph(s: Console)
    requires
        s.wf(),
    ensures
        s.write_byte(NEWLINE) == s.new_line(),
        s.write_byte(NEWLINE).column == 0,
        s.write_byte(NEWLINE).grid[BUFFER_HEIGHT - 2] == s.grid[BUFFER_HEIGHT - 1],
        s.write_byte(NEWLINE).grid[BUFFER_HEIGHT - 1] == s.blank_row(),
{
}

/// Scroll law: after a scroll each row but the bottom one holds what the row
/// below it held before, and the bottom row is entirely blank cells in the
/// console's colours. Colours are kept and the cursor is at column 0.
pub proof fn lemma_new_line_shifts_rows(s: Console)
    requires
        s.wf(),
    ensures
        forall|row: int|
            0 <= row < BUFFER_HEIGHT - 1 ==> #[trigger] s.new_line().grid[row] == s.grid[row + 1],
        forall|col: int|
            0 <= col < BUFFER_WIDTH ==> #[trigger] s.new_line().grid[BUFFER_HEIGHT - 1][col]
                == ScreenChar::blank(s.color),
        s.new_line().column == 0,
        s.new_line().color == s.color,
{
}

/// No-wrap law: bytes without a newline that fit in what is left of the
/// bottom row are stored side by side from the cursor on, and nothing
/// scrolls: the rows above stay as they were and the cursor advances by the
/// number of bytes.
pub proof fn lemma_write_bytes_fills_row(s: Console, bytes: Seq<u8>)
    requires
        s.wf(),
        s.column + bytes.len() <= BUFFER_WIDTH,
        forall|i: int| 0 <= i < bytes.len() ==> bytes[i] != NEWLINE,
    ensures
        s.write_bytes(bytes) == s.fill(bytes),
    decreases bytes.len(),
{
    if bytes.len() == 0 {
        assert(s.fill(bytes).grid[BUFFER_HEIGHT - 1] =~= s.grid[BUFFER_HEIGHT - 1]);
        assert(s.fill(bytes).grid =~= s.grid);
    } else {
        let front = bytes.drop_last();
        lemma_write_bytes_fills_row(s, front);
        let before = s.fill(front);
        assert(before.put(bytes.last()).grid[BUFFER_HEIGHT - 1] =~= s.fill(bytes).grid[BUFFER_HEIGHT
            - 1]);
        assert(before.put(bytes.last()).grid =~= s.fill(bytes).grid);
    }
}

/// Full-width boundary: writing exactly `BUFFER_WIDTH` bytes without a
/// newline from column 0 fills the bottom row, leaves the cursor at column
/// `BUFFER_WIDTH` and does not scroll.
pub proof fn lemma_full_row_does_not_scroll(s: Console, bytes: Seq<u8>)
    requires
        s.wf(),
        s.column == 0,
        bytes.len() == BUFFER_WIDTH,
        forall|i: int| 0 <= i < bytes.len() ==> bytes[i] != NEWLINE,
    ensures
        s.write_bytes(bytes).column == BUFFER_WIDTH,
        s.write_bytes(bytes).color == s.color,
        forall|row: int|
            0 <= row < BUFFER_HEIGHT - 1 ==> #[trigger] s.write_bytes(bytes).grid[row]
                == s.grid[row],
        forall|col: int|
            0 <= col < BUFFER_WIDTH ==> #[trigger] s.write_bytes(bytes).grid[BUFFER_HEIGHT
                - 1][col] == (ScreenChar { ascii_character: bytes[col], color_code: s.color }),
{
    lemma_write_bytes_fills_row(s, bytes);
}

/// Wrap law: after exactly `BUFFER_WIDTH` bytes without a newline from
/// column 0, one more such byte scrolls the display exactly once and is then
/// stored at column 0 of the bottom row. The filled row stands one row
/// higher, the rows above it have moved up by one, the rest of the bottom
/// row is blank and the cursor is at column 1.
pub proof fn lemma_wrap_after_full_row(s: Console, bytes: Seq<u8>, extra: u8)
    requires
        s.wf(),
        s.column == 0,
        bytes.len() == BUFFER_WIDTH,
        forall|i: int| 0 <= i < bytes.len() ==> bytes[i] != NEWLINE,
        extra != NEWLINE,
    ensures
        s.write_bytes(bytes.push(extra)) == s.write_bytes(bytes).new_line().put(extra),
        s.write_bytes(bytes.push(extra)).column == 1,
        s.write_bytes(bytes.push(extra)).grid[BUFFER_HEIGHT - 1][0] == (ScreenChar {
            ascii_character: extra,
            color_code: s.color,
        }),
        forall|col: int|
            1 <= col < BUFFER_WIDTH ==> #[trigger] s.write_bytes(bytes.push(extra)).grid[BUFFER_HEIGHT
                - 1][col] == ScreenChar::blank(s.color),
        forall|col: int|
            0 <= col < BUFFER_WIDTH ==> #[trigger] s.write_bytes(bytes.push(extra)).grid[BUFFER_HEIGHT
                - 2][col] == (ScreenChar { ascii_character: bytes[col], color_code: s.color }),
        forall|row: int|
            0 <= row < BUFFER_HEIGHT - 2 ==> #[trigger] s.write_bytes(bytes.push(extra)).grid[row]
                == s.grid[row + 1],
{
    lemma_write_bytes_fills_row(s, bytes);
    assert(bytes.push(extra).drop_last() =~= bytes);
}

} // verus!
