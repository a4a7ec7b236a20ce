//! Colours and the attribute byte that packs a foreground and a background.

use vstd::prelude::*;

verus! {

/// The sixteen colours of the text-mode palette.
#[derive(Debug, Clone, Copy, PartialEq, Eq, Structural)]
pub enum Color {
    Black,
    Blue,
    Green,
    Cyan,
    Red,
    Magenta,
    Brown,
    LightGray,
    DarkGray,
    LightBlue,
    LightGreen,
    LightCyan,
    LightRed,
    Pink,
    Yellow,
    White,
}

impl Color {
    /// The four-bit number that the display hardware knows this colour by.
    pub open spec fn spec_code(self) -> u8 {
        match self {
            Color::Black => 0,
            Color::Blue => 1,
            Color::Green => 2,
            Color::Cyan => 3,
            Color::Red => 4,
            Color::Magenta => 5,
            Color::Brown => 6,
            Color::LightGray => 7,
            Color::DarkGray => 8,
            Color::LightBlue => 9,
            Color::LightGreen => 10,
            Color::LightCyan => 11,
            Color::LightRed => 12,
            Color::Pink => 13,
            Color::Yellow => 14,
            Color::White => 15,
        }
    }

    /// The colour's hardware number, always below sixteen.
    #[verifier::when_used_as_spec(spec_code)]
    pub fn code(self) -> (code: u8)
        ensures
            code == self.spec_code(),
            code < 16,
    {
        match self {
            Color::Black => 0,
            Color::Blue => 1,
            Color::Green => 2,
            Color::Cyan => 3,
            Color::Red => 4,
            Color::Magenta => 5,
            Color::Brown => 6,
            Color::LightGray => 7,
            Color::DarkGray => 8,
            Color::LightBlue => 9,
            Color::LightGreen => 10,
            Color::LightCyan => 11,
            Color::LightRed => 12,
            Color::Pink => 13,
            Color::Yellow => 14,
            Color::White => 15,
        }
    }

    /// No two colours share a hardware number.
    pub proof fn lemma_code_distinguishes(self, other: Color)
        ensures
            self.spec_code() == other.spec_code() <==> self == other,
    {
    }
}

/// The attribute byte of a cell: the background colour in the high four
/// bits, the foreground colour in the low four.
#[derive(Debug, Clone, Copy, PartialEq, Eq, Structural)]
pub struct ColorCode(pub u8);

impl ColorCode {
    /// The attribute byte of a colour pair, as a number.
    pub open spec fn pack(foreground: Color, background: Color) -> u8 {
        (background.spec_code() * 16 + foreground.spec_code()) as u8
    }

    /// Packs a foreground and a background colour into one attribute byte.
    pub fn new(foreground: Color, background: Color) -> (attribute: ColorCode)
        ensures
            attribute.0 == Self::pack(foreground, background),
            attribute.0 & 0x0f == foreground.spec_code(),
            attribute.0 >> 4 == background.spec_code(),
    {
        let low: u8 = foreground.code();
        let high: u8 = background.code();
        assert((high << 4 | low) == high * 16 + low && (high << 4 | low) & 0x0f == low && (high << 4
            | low) >> 4 == high) by (bit_vector)
            requires
                low < 16,
                high < 16,
        ;
        ColorCode(high << 4 | low)
    }
}

} // verus!
