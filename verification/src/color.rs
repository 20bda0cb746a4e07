//! The sixteen display colours and the attribute byte made of two of them.

use vstd::prelude::*;

verus! {

/// One of the sixteen colours of the text display.
#[derive(Clone, Copy, Debug, PartialEq, Eq)]
pub enum Color {
    Black,
    Blue,
    Green,
    Cyan,
    Red,
    Magenta,
    Brown,
    LightGray,
    DarkGray,
    LightBlue,
    LightGreen,
    LightCyan,
    LightRed,
    Pink,
    Yellow,
    White,
}

impl Color {
    /// The four-bit number by which the display knows this colour.
    pub open spec fn nibble(self) -> u8 {
        match self {
            Color::Black => 0,
            Color::Blue => 1,
            Color::Green => 2,
            Color::Cyan => 3,
            Color::Red => 4,
            Color::Magenta => 5,
            Color::Brown => 6,
            Color::LightGray => 7,
            Color::DarkGray => 8,
            Color::LightBlue => 9,
            Color::LightGreen => 10,
            Color::LightCyan => 11,
            Color::LightRed => 12,
            Color::Pink => 13,
            Color::Yellow => 14,
            Color::White => 15,
        }
    }

    /// The colour's number, from 0 (black) to 15 (white).
    pub fn number(&self) -> (n: u8)
        ensures
            n == self.nibble(),
            n <= 15,
    {
        match self {
            Color::Black => 0,
            Color::Blue => 1,
            Color::Green => 2,
            Color::Cyan => 3,
            Color::Red => 4,
            Color::Magenta => 5,
            Color::Brown => 6,
            Color::LightGray => 7,
            Color::DarkGray => 8,
            Color::LightBlue => 9,
            Color::LightGreen => 10,
            Color::LightCyan => 11,
            Color::LightRed => 12,
            Color::Pink => 13,
            Color::Yellow => 14,
            Color::White => 15,
        }
    }
}

/// A colour attribute: the background colour in the high four bits, the
/// foreground colour in the low four.
#[derive(Clone, Copy, Debug, PartialEq, Eq, Structural)]
pub struct ColorCode(pub u8);

impl ColorCode {
    /// The attribute byte for `foreground` on `background`.
    pub open spec fn pack(foreground: Color, background: Color) -> u8 {
        (background.nibble() << 4) | foreground.nibble()
    }

    /// Packs a foreground and a background colour into one attribute.
    pub fn new(foreground: Color, background: Color) -> (code: ColorCode)
        ensures
            code.0 == Self::pack(foreground, background),
            code.0 == 16 * background.nibble() + foreground.nibble(),
    {
        let fg: u8 = foreground.number();
        let bg: u8 = background.number();
        assert(((bg << 4) | fg) == 16 * bg + fg) by (bit_vector)
            requires
                fg <= 15,
                bg <= 15,
        ;
        ColorCode((bg << 4) | fg)
    }
}

} // verus!
