//! The cell grid as the display hardware sees it: two bytes per cell, the
//! character code first and the attribute second, 80 cells to a row and 25
//! rows, row after row without padding.

use crate::color::ColorCode;
use volatile::Volatile;
use vstd::prelude::*;

verus! {

/// Number of rows of the grid.
pub const BUFFER_HEIGHT: usize = 25;

/// Number of cells in a row.
pub const BUFFER_WIDTH: usize = 80;

/// One character position: the character code and the attribute it is shown
/// with.
#[derive(Debug, Clone, Copy, PartialEq, Eq, Structural)]
pub struct ScreenChar {
    pub ascii_character: u8,
    pub color_code: ColorCode,
}

impl ScreenChar {
    /// The two bytes that stand for this cell in display memory: character
    /// code first, attribute second.
    pub open spec fn spec_to_bytes(self) -> Seq<u8> {
        seq![self.ascii_character, self.color_code.0]
    }

    /// The cell that two bytes of display memory stand for.
    pub open spec fn spec_from_bytes(bytes: Seq<u8>) -> ScreenChar {
        ScreenChar { ascii_character: bytes[0], color_code: ColorCode(bytes[1]) }
    }

    /// Encodes the cell for display memory.
    pub fn to_bytes(self) -> (bytes: [u8; 2])
        ensures
            bytes@ == self.spec_to_bytes(),
    {
        [self.ascii_character, self.color_code.0]
    }

    /// Decodes a cell from display memory. Every pair of bytes is a cell.
    pub fn from_bytes(bytes: [u8; 2]) -> (cell: ScreenChar)
        ensures
            cell == Self::spec_from_bytes(bytes@),
    {
        ScreenChar { ascii_character: bytes[0], color_code: ColorCode(bytes[1]) }
    }

    /// Decoding what was encoded gives the cell back.
    pub proof fn lemma_bytes_round_trip(self)
        ensures
            Self::spec_from_bytes(self.spec_to_bytes()) == self,
    {
    }

    /// Every two bytes are the encoding of the cell they decode to.
    pub proof fn lemma_cell_round_trip(bytes: Seq<u8>)
        requires
            bytes.len() == 2,
        ensures
            Self::spec_from_bytes(bytes).spec_to_bytes() == bytes,
    {
    }
}

/// `volatile::Volatile`, a value in memory that is loaded and stored with
/// volatile accesses only. The verifier sees nothing inside it.
#[verifier::external_type_specification]
#[verifier::external_body]
#[verifier::reject_recursive_types(T)]
pub struct ExVolatile<T: Copy>(Volatile<T>);

/// The grid of cells. Arrays and `Volatile` add nothing to the size of what
/// they hold, so a `Buffer` is exactly `BUFFER_HEIGHT * BUFFER_WIDTH * 2`
/// bytes in the order the hardware expects.
pub type Buffer = [[Volatile<[u8; 2]>; BUFFER_WIDTH]; BUFFER_HEIGHT];

/// The two bytes that a volatile cell holds: what was last stored in it. The
/// memory of a cell is taken to change through its `Volatile` alone, as the
/// exclusive reference to it says.
pub uninterp spec fn cell_bytes(cell: Volatile<[u8; 2]>) -> Seq<u8>;

/// `Volatile::read`: a volatile load of the cell. Trusted to return the
/// bytes that the cell holds; it never panics.
#[verifier::external_body]
pub(crate) fn volatile_read(cell: &Volatile<[u8; 2]>) -> (bytes: [u8; 2])
    ensures
        bytes@ == cell_bytes(*cell),
{
    cell.read()
}

/// `Volatile::write`: a volatile store into the cell. Trusted to leave the
/// cell holding exactly the bytes given; it never panics.
#[verifier::external_body]
pub(crate) fn volatile_write(cell: &mut Volatile<[u8; 2]>, bytes: [u8; 2])
    ensures
        cell_bytes(*final(cell)) == bytes@,
    no_unwind
{
    cell.write(bytes)
}

/// The cell shown at a row and column of a grid.
pub open spec fn cell_at(buffer: Buffer, row: int, column: int) -> ScreenChar {
    ScreenChar::spec_from_bytes(cell_bytes(buffer[row][column]))
}

/// The cells of a grid, row by row.
pub open spec fn rows_of(buffer: Buffer) -> Seq<Seq<ScreenChar>> {
    Seq::new(
        BUFFER_HEIGHT as nat,
        |row: int| Seq::new(BUFFER_WIDTH as nat, |column: int| cell_at(buffer, row, column)),
    )
}

} // verus!
