//! The display surface: a fixed grid of cells, each reached only by volatile
//! reads and writes.

use vstd::prelude::*;
use volatile::Volatile;
use crate::color::ColorCode;

verus! {

/// The number of rows of the display.
pub const BUFFER_HEIGHT: usize = 25;

/// The number of columns of the display.
pub const BUFFER_WIDTH: usize = 80;

/// What one cell shows: a character code and the colours it is drawn in.
#[derive(Clone, Copy, Debug, PartialEq, Eq, Structural)]
pub struct ScreenChar {
    pub ascii_character: u8,
    pub color_code: ColorCode,
}

impl ScreenChar {
    /// The cell that the two bytes `bytes` stand for on the display: the
    /// character code first, the colour attribute second.
    pub open spec fn of_bytes(bytes: [u8; 2]) -> ScreenChar {
        ScreenChar { ascii_character: bytes[0], color_code: ColorCode(bytes[1]) }
    }

    /// The two bytes by which the display holds this cell, character code
    /// first.
    pub fn to_bytes(self) -> (bytes: [u8; 2])
        ensures
            bytes[0] == self.ascii_character,
            bytes[1] == self.color_code.0,
            Self::of_bytes(bytes) == self,
    {
        [self.ascii_character, self.color_code.0]
    }

    /// Reads a cell from the two bytes by which the display holds it.
    pub fn from_bytes(bytes: [u8; 2]) -> (cell: ScreenChar)
        ensures
            cell == Self::of_bytes(bytes),
    {
        ScreenChar { ascii_character: bytes[0], color_code: ColorCode(bytes[1]) }
    }
}

/// `volatile::Volatile`: a value that is only read and written by accesses
/// that the compiler may neither drop nor reorder.
#[verifier::external_type_specification]
#[verifier::external_body]
#[verifier::reject_recursive_types(T)]
pub struct ExVolatile<T: Copy>(Volatile<T>);

/// The two bytes that a volatile display cell holds: what was last written
/// to it, and what a read of it returns.
pub uninterp spec fn held(cell: Volatile<[u8; 2]>) -> [u8; 2];

/// `Volatile::read`: a volatile read of the cell. It returns a copy of the
/// bytes that the cell holds, and never panics.
#[verifier::external_body]
fn volatile_read(cell: &Volatile<[u8; 2]>) -> (bytes: [u8; 2])
    ensures
        bytes == held(*cell),
{
    cell.read()
}

/// `Volatile::write`: a volatile write to the cell. Afterwards the cell holds
/// `bytes`; it never panics.
#[verifier::external_body]
fn volatile_write(cell: &mut Volatile<[u8; 2]>, bytes: [u8; 2])
    ensures
        held(*final(cell)) == bytes,
{
    cell.write(bytes)
}

/// The grid of display cells. Each cell is held as its two bytes, so that
/// the grid lies in memory as the display reads it: row after row, and in
/// each cell the character code before the colour attribute.
pub struct Buffer {
    pub chars: [[Volatile<[u8; 2]>; BUFFER_WIDTH]; BUFFER_HEIGHT],
}

impl Buffer {
    /// What the cell in row `row` and column `col` shows.
    pub open spec fn cell(&self, row: int, col: int) -> ScreenChar {
        ScreenChar::of_bytes(held(self.chars[row][col]))
    }

    /// Reads the cell in row `row` and column `col`.
    pub fn read(&self, row: usize, col: usize) -> (cell: ScreenChar)
        requires
            row < BUFFER_HEIGHT,
            col < BUFFER_WIDTH,
        ensures
            cell == self@[row as int][col as int],
    {
        ScreenChar::from_bytes(volatile_read(&self.chars[row][col]))
    }

    /// Writes `cell` to row `row` and column `col`, and to no other place.
    pub fn write(&mut self, row: usize, col: usize, cell: ScreenChar)
        requires
            row < BUFFER_HEIGHT,
            col < BUFFER_WIDTH,
        ensures
            final(self)@ == old(self)@.update(
                row as int,
                old(self)@[row as int].update(col as int, cell),
            ),
    {
        volatile_write(&mut self.chars[row][col], cell.to_bytes());
        assert(self@ =~~= old(self)@.update(
            row as int,
            old(self)@[row as int].update(col as int, cell),
        ));
    }
}

impl View for Buffer {
    type V = Seq<Seq<ScreenChar>>;

    /// The grid as rows of cells: `BUFFER_HEIGHT` rows of `BUFFER_WIDTH`
    /// cells each.
    open spec fn view(&self) -> Seq<Seq<ScreenChar>> {
        Seq::new(
            BUFFER_HEIGHT as nat,
            |row: int| Seq::new(BUFFER_WIDTH as nat, |col: int| self.cell(row, col)),
        )
    }
}

} // verus!
