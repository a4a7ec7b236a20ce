//! The display as a mathematical value, and what each operation of the
//! writer does to it.

use crate::buffer::{ScreenChar, BUFFER_HEIGHT, BUFFER_WIDTH};
use crate::color::ColorCode;
use vstd::prelude::*;

verus! {

/// The byte that ends a line.
pub const NEWLINE: u8 = 0x0a;

/// The character of a blank cell.
pub const SPACE: u8 = 0x20;

/// The character shown in place of a byte that has no glyph.
pub const PLACEHOLDER: u8 = 0xfe;

/// A byte is printable when it is ASCII with a glyph: space up to tilde.
pub open spec fn is_printable(byte: u8) -> bool {
    0x20 <= byte <= 0x7e
}

/// The byte that is written for a byte of text: the byte itself when it is
/// printable or a newline, the placeholder otherwise.
pub open spec fn sanitize(byte: u8) -> u8 {
    if is_printable(byte) || byte == NEWLINE {
        byte
    } else {
        PLACEHOLDER
    }
}

/// What a writer is at one moment: the column of the next character on the
/// bottom row, the attribute it writes with, and the cells on display, row by
/// row from the top.
#[verifier::ext_equal]
pub struct Screen {
    pub column: nat,
    pub color: ColorCode,
    pub rows: Seq<Seq<ScreenChar>>,
}

impl Screen {
    /// The grid has its fixed size and the column lies on the bottom row or
    /// just past its end.
    pub open spec fn wf(self) -> bool {
        &&& self.column <= BUFFER_WIDTH
        &&& self.rows.len() == BUFFER_HEIGHT
        &&& forall|row: int|
            0 <= row < BUFFER_HEIGHT ==> (#[trigger] self.rows[row]).len() == BUFFER_WIDTH
    }

    /// A space in the writer's attribute.
    pub open spec fn blank(self) -> ScreenChar {
        ScreenChar { ascii_character: SPACE, color_code: self.color }
    }

    /// A row of blanks.
    pub open spec fn blank_row(self) -> Seq<ScreenChar> {
        Seq::new(BUFFER_WIDTH as nat, |column: int| self.blank())
    }

    /// A byte as a cell in the writer's attribute.
    pub open spec fn glyph(self, byte: u8) -> ScreenChar {
        ScreenChar { ascii_character: byte, color_code: self.color }
    }

    /// The row that text is written on.
    pub open spec fn bottom_row(self) -> Seq<ScreenChar> {
        self.rows[BUFFER_HEIGHT - 1]
    }

    /// The given row blanked, all else as before.
    pub open spec fn clear_row(self, row: int) -> Screen {
        Screen { rows: self.rows.update(row, self.blank_row()), ..self }
    }

    /// Every row moved up by one, the top row gone, a blank row at the
    /// bottom and the column back at the left edge.
    pub open spec fn new_line(self) -> Screen {
        Screen { column: 0, rows: self.rows.drop_first().push(self.blank_row()), ..self }
    }

    /// The byte placed at the column on the bottom row, and the column moved
    /// one to the right.
    pub open spec fn put(self, byte: u8) -> Screen {
        let bottom = BUFFER_HEIGHT - 1;
        Screen {
            column: self.column + 1,
            rows: self.rows.update(
                bottom,
                self.rows[bottom].update(self.column as int, self.glyph(byte)),
            ),
            ..self
        }
    }

    /// One byte written: a newline starts a new line; any other byte is
    /// placed on the bottom row, after a new line if the row is full.
    pub open spec fn write_byte(self, byte: u8) -> Screen {
        if byte == NEWLINE {
            self.new_line()
        } else if self.column >= BUFFER_WIDTH {
            self.new_line().put(byte)
        } else {
            self.put(byte)
        }
    }

    /// Bytes of text written in order, each one sanitized first.
    pub open spec fn write_string(self, bytes: Seq<u8>) -> Screen
        decreases bytes.len(),
    {
        if bytes.len() == 0 {
            self
        } else {
            self.write_string(bytes.drop_last()).write_byte(sanitize(bytes.last()))
        }
    }
}

} // verus!
