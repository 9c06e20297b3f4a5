//! The display surface: the grid of glyph cells in video memory.

use vstd::prelude::*;
use volatile::Volatile;
use crate::cell::ScreenChar;

verus! {

/// The number of rows of the display.
pub const BUFFER_HEIGHT: usize = 25;

/// The number of columns of the display.
pub const BUFFER_WIDTH: usize = 80;

/// `volatile::Volatile`, the wrapper of a value that is only read and written
/// by volatile accesses, which the compiler neither drops nor reorders. What
/// a wrapper holds is not visible to the verifier: [`stored`] stands for it.
#[verifier::external_type_specification]
#[verifier::external_body]
#[verifier::reject_recursive_types(T)]
pub struct ExVolatile<T: Copy>(Volatile<T>);

/// The two bytes that a volatile cell of display memory holds: those of the
/// last write to it. Only the holder of the exclusive reference to the
/// display memory is taken to change it.
pub uninterp spec fn stored(cell: Volatile<[u8; 2]>) -> Seq<u8>;

/// `Volatile::read`: a volatile read of the cell, which returns a copy of the
/// value the cell holds. It is not proved; the claim is that the two bytes
/// returned are the bytes stored in the cell.
#[verifier::external_body]
fn volatile_read(cell: &Volatile<[u8; 2]>) -> (value: [u8; 2])
    ensures
        value@ == stored(*cell),
{
    cell.read()
}

/// `Volatile::write`: a volatile write to the cell, which sets the value the
/// cell holds. It is not proved; the claim is that the cell then stores the
/// two bytes given.
#[verifier::external_body]
fn volatile_write(cell: &mut Volatile<[u8; 2]>, value: [u8; 2])
    ensures
        stored(*final(cell)) == value@,
{
    cell.write(value)
}

/// The memory of the display: `BUFFER_HEIGHT` rows of `BUFFER_WIDTH` cells,
/// each cell two bytes behind a volatile wrapper.
pub type Surface = [[Volatile<[u8; 2]>; BUFFER_WIDTH]; BUFFER_HEIGHT];

/// Whether `grid` has the shape of the display.
pub open spec fn is_grid(grid: Seq<Seq<ScreenChar>>) -> bool {
    &&& grid.len() == BUFFER_HEIGHT
    &&& forall|row: int| 0 <= row < BUFFER_HEIGHT ==> (#[trigger] grid[row]).len() == BUFFER_WIDTH
}

/// The glyph cells that a display memory shows, row by row.
pub open spec fn surface_view(surface: Surface) -> Seq<Seq<ScreenChar>> {
    Seq::new(
        BUFFER_HEIGHT as nat,
        |row: int|
            Seq::new(
                BUFFER_WIDTH as nat,
                |col: int| ScreenChar::spec_from_bytes(stored(surface[row][col])),
            ),
    )
}

/// The exclusive handle to the display memory.
pub struct Buffer {
    chars: &'static mut Surface,
}

impl View for Buffer {
    type V = Seq<Seq<ScreenChar>>;

    closed spec fn view(&self) -> Seq<Seq<ScreenChar>> {
        surface_view(*self.chars)
    }
}

impl Buffer {
    /// Takes over the display memory.
    pub fn new(chars: &'static mut Surface) -> (buffer: Buffer)
        ensures
            buffer@ == surface_view(*old(chars)),
            is_grid(buffer@),
    {
        Buffer { chars }
    }

    /// The view of a buffer always has the shape of the display.
    pub proof fn lemma_view_is_grid(&self)
        ensures
            is_grid(self@),
    {
    }

    /// Reads the cell at `(row, col)` from display memory.
    pub fn read(&self, row: usize, col: usize) -> (cell: ScreenChar)
        requires
            row < BUFFER_HEIGHT,
            col < BUFFER_WIDTH,
        ensures
            cell == self@[row as int][col as int],
    {
        ScreenChar::from_bytes(volatile_read(&self.chars[row][col]))
    }

    /// Stores `cell` at `(row, col)` in display memory.
    pub fn write(&mut self, row: usize, col: usize, cell: ScreenChar)
        requires
            row < BUFFER_HEIGHT,
            col < BUFFER_WIDTH,
        ensures
            final(self)@ == old(self)@.update(
                row as int,
                old(self)@[row as int].update(col as int, cell),
            ),
    {
        volatile_write(&mut self.chars[row][col], cell.to_bytes());
        assert(self@ =~~= old(self)@.update(
            row as int,
            old(self)@[row as int].update(col as int, cell),
        ));
    }
}

} // verus!
