//! The writer: a cursor on the bottom row of the grid.

use crate::buffer::{
    cell_at, rows_of, volatile_read, volatile_write, Buffer, ScreenChar, BUFFER_HEIGHT,
    BUFFER_WIDTH,
};
use crate::color::ColorCode;
use crate::screen::{Screen, NEWLINE, PLACEHOLDER, SPACE};
use vstd::prelude::*;
use vstd::string::StringSliceAdditionalSpecFns;

verus! {

/// Writes text to the bottom row of a grid of cells, in one attribute.
pub struct Writer {
    column_position: usize,
    color_code: ColorCode,
    buffer: &'static mut Buffer,
}

impl View for Writer {
    type V = Screen;

    closed spec fn view(&self) -> Screen {
        Screen {
            column: self.column_position as nat,
            color: self.color_code,
            rows: rows_of(*self.buffer),
        }
    }
}

impl Writer {
    #[verifier::type_invariant]
    spec fn column_on_row(self) -> bool {
        self.column_position <= BUFFER_WIDTH
    }

    /// A writer at the left edge of the bottom row of `buffer`, which keeps
    /// the cells it holds.
    pub fn new(color_code: ColorCode, buffer: &'static mut Buffer) -> (writer: Writer)
        ensures
            writer@ == (Screen { column: 0, color: color_code, rows: rows_of(*old(buffer)) }),
            writer@.wf(),
    {
        Writer { column_position: 0, color_code, buffer }
    }

    /// The column of the next character on the bottom row.
    pub fn column_position(&self) -> (column: usize)
        ensures
            column == self@.column,
            self@.wf(),
    {
        proof {
            use_type_invariant(self);
        }
        self.column_position
    }

    /// The attribute that this writer writes with.
    pub fn color_code(&self) -> (attribute: ColorCode)
        ensures
            attribute == self@.color,
            self@.wf(),
    {
        proof {
            use_type_invariant(self);
        }
        self.color_code
    }

    /// The cell on display at a row and column, or nothing outside the grid.
    pub fn cell(&self, row: usize, column: usize) -> (cell: Option<ScreenChar>)
        ensures
            cell == if row < BUFFER_HEIGHT && column < BUFFER_WIDTH {
                Some(self@.rows[row as int][column as int])
            } else {
                None
            },
            self@.wf(),
    {
        proof {
            use_type_invariant(self);
        }
        if row < BUFFER_HEIGHT && column < BUFFER_WIDTH {
            Some(self.load(row, column))
        } else {
            None
        }
    }

    /// Reads one cell of the grid.
    fn load(&self, row: usize, column: usize) -> (cell: ScreenChar)
        requires
            row < BUFFER_HEIGHT,
            column < BUFFER_WIDTH,
        ensures
            cell == self@.rows[row as int][column as int],
    {
        ScreenChar::from_bytes(volatile_read(&self.buffer[row][column]))
    }

    /// Writes one cell of the grid and leaves every other cell as it is.
    fn store(&mut self, row: usize, column: usize, cell: ScreenChar)
        requires
            row < BUFFER_HEIGHT,
            column < BUFFER_WIDTH,
        ensures
            final(self)@.column == old(self)@.column,
            final(self)@.color == old(self)@.color,
            final(self)@.rows.len() == BUFFER_HEIGHT,
            forall|r: int|
                0 <= r < BUFFER_HEIGHT ==> (#[trigger] final(self)@.rows[r]).len() == BUFFER_WIDTH,
            forall|r: int, c: int|
                0 <= r < BUFFER_HEIGHT && 0 <= c < BUFFER_WIDTH
                    ==> #[trigger] final(self)@.rows[r][c] == if r == row && c == column {
                    cell
                } else {
                    old(self)@.rows[r][c]
                },
    {
        proof {
            use_type_invariant(&*self);
        }
        let ghost before = *self.buffer;
        volatile_write(&mut self.buffer[row][column], cell.to_bytes());
        assert forall|r: int, c: int|
            0 <= r < BUFFER_HEIGHT && 0 <= c < BUFFER_WIDTH implies #[trigger] self@.rows[r][c]
            == if r == row && c == column {
            cell
        } else {
            old(self)@.rows[r][c]
        } by {
            assert(self@.rows[r][c] == cell_at(*self.buffer, r, c));
            assert(old(self)@.rows[r][c] == cell_at(before, r, c));
        }
    }

    /// Blanks one row of the grid.
    pub fn clear_row(&mut self, row: usize)
        requires
            row < BUFFER_HEIGHT,
        ensures
            final(self)@ == old(self)@.clear_row(row as int),
            final(self)@.wf(),
    {
        proof {
            use_type_invariant(&*self);
        }
        let blank = ScreenChar { ascii_character: SPACE, color_code: self.color_code };
        for col in 0..BUFFER_WIDTH
            invariant
                row < BUFFER_HEIGHT,
                self@.column == old(self)@.column,
                self@.color == old(self)@.color,
                self@.wf(),
                blank == old(self)@.blank(),
                forall|r: int, c: int|
                    0 <= r < BUFFER_HEIGHT && 0 <= c < BUFFER_WIDTH ==> #[trigger] self@.rows[r][c]
                        == if r == row && c < col {
                        blank
                    } else {
                        old(self)@.rows[r][c]
                    },
        {
            self.store(row, col, blank);
        }
        assert(self@.rows =~~= old(self)@.clear_row(row as int).rows);
    }

    /// Starts a new line: moves every row up by one, blanks the bottom row
    /// and returns to the left edge. What the top row held is lost.
    pub fn new_line(&mut self)
        ensures
            final(self)@ == old(self)@.new_line(),
            final(self)@.wf(),
    {
        proof {
            use_type_invariant(&*self);
        }
        for row in 1..BUFFER_HEIGHT
            invariant
                self@.column == old(self)@.column,
                self@.color == old(self)@.color,
                self@.wf(),
                forall|r: int, c: int|
                    0 <= r < BUFFER_HEIGHT && 0 <= c < BUFFER_WIDTH ==> #[trigger] self@.rows[r][c]
                        == if r < row - 1 {
                        old(self)@.rows[r + 1][c]
                    } else {
                        old(self)@.rows[r][c]
                    },
        {
            for col in 0..BUFFER_WIDTH
                invariant
                    1 <= row < BUFFER_HEIGHT,
                    self@.column == old(self)@.column,
                    self@.color == old(self)@.color,
                    self@.wf(),
                    forall|r: int, c: int|
                        0 <= r < BUFFER_HEIGHT && 0 <= c < BUFFER_WIDTH
                            ==> #[trigger] self@.rows[r][c] == if r < row - 1 || (r == row - 1 && c
                            < col) {
                            old(self)@.rows[r + 1][c]
                        } else {
                            old(self)@.rows[r][c]
                        },
            {
                let character = self.load(row, col);
                self.store(row - 1, col, character);
            }
        }
        self.clear_row(BUFFER_HEIGHT - 1);
        self.column_position = 0;
        assert(self@.rows =~~= old(self)@.new_line().rows);
    }

    /// Writes one byte. A newline starts a new line. Any other byte goes to
    /// the bottom row as it is, at the column, which then moves right by one;
    /// if the row was full, a new line is started first.
    pub fn write_byte(&mut self, byte: u8)
        ensures
            final(self)@ == old(self)@.write_byte(byte),
            final(self)@.wf(),
    {
        match byte {
            NEWLINE => self.new_line(),
            byte => {
                if self.column_position >= BUFFER_WIDTH {
                    self.new_line();
                }
                let row: usize = BUFFER_HEIGHT - 1;
                let col: usize = self.column_position;
                let color_code = self.color_code;
                let ghost line = self@;
                self.store(row, col, ScreenChar { ascii_character: byte, color_code });
                self.column_position += 1;
                assert(self@.rows =~~= line.put(byte).rows);
            },
        }
    }

    /// Writes text byte by byte. A byte that is neither printable ASCII nor
    /// a newline is written as the placeholder.
    pub fn write_string(&mut self, s: &str)
        ensures
            final(self)@ == old(self)@.write_string(s.spec_bytes()),
            final(self)@.wf(),
    {
        proof {
            use_type_invariant(&*self);
        }
        let bytes = s.as_bytes();
        for index in 0..bytes.len()
            invariant
                bytes@ == s.spec_bytes(),
                self@.wf(),
                self@ == old(self)@.write_string(bytes@.take(index as int)),
        {
            let byte: u8 = bytes[index];
            assert(bytes@.take(index + 1).drop_last() == bytes@.take(index as int));
            match byte {
                0x20..=0x7e | NEWLINE => self.write_byte(byte),
                _ => self.write_byte(PLACEHOLDER),
            }
        }
        assert(bytes@.take(bytes@.len() as int) == bytes@);
    }
}

/// `core::fmt::Error`, the error of the standard formatting traits. It holds
/// nothing, and nothing is claimed of it.
#[verifier::external_type_specification]
#[verifier::external_body]
pub struct ExFmtError(core::fmt::Error);

/// Lets the standard formatting machinery write through a `Writer`.
impl core::fmt::Write for Writer {
    /// Writes the text as `write_string` does. It never fails.
    fn write_str(&mut self, s: &str) -> (result: core::fmt::Result)
        ensures
            result is Ok,
            final(self)@ == old(self)@.write_string(s.spec_bytes()),
            final(self)@.wf(),
    {
        self.write_string(s);
        Ok(())
    }
}

} // verus!
