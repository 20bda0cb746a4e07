//! The mathematical model of the console: the grid of cells and the cursor,
//! and what each byte of the input does to them.

use vstd::prelude::*;
use crate::buffer::{ScreenChar, BUFFER_HEIGHT, BUFFER_WIDTH};
use crate::color::ColorCode;

verus! {

/// The byte that ends a line.
pub const NEWLINE: u8 = 0x0a;

/// The byte that erases the cell before the cursor.
pub const BACKSPACE: u8 = 0x08;

/// The character code of an erased cell. It is no visible space: it marks
/// where the content of a row ends.
pub const ERASED: u8 = 0x00;

/// The character code of a cleared cell.
pub const SPACE: u8 = 0x20;

/// The character code shown for a byte that the display cannot show.
pub const PLACEHOLDER: u8 = 0xfe;

/// Whether `byte` is a printable ASCII character.
pub open spec fn is_printable(byte: u8) -> bool {
    0x20 <= byte <= 0x7e
}

/// Whether every byte of `bytes` is a printable ASCII character.
pub open spec fn all_printable(bytes: Seq<u8>) -> bool {
    forall|i: int| 0 <= i < bytes.len() ==> is_printable(#[trigger] bytes[i])
}

/// The character code that is placed for the input byte `byte`, where the
/// byte is placed at all: the byte itself if it is printable, otherwise the
/// placeholder.
pub open spec fn glyph(byte: u8) -> u8 {
    if is_printable(byte) {
        byte
    } else {
        PLACEHOLDER
    }
}

/// The column at which the content of the row `line` ends: that of its first
/// erased cell, or the length of the row where it has none.
pub open spec fn content_end(line: Seq<ScreenChar>) -> int {
    scan_from(line, 0)
}

/// The column of the first erased cell of `line` at or after column `from`, or
/// the length of the row where there is none.
pub open spec fn scan_from(line: Seq<ScreenChar>, from: int) -> int
    decreases line.len() - from,
{
    if from < 0 || from >= line.len() {
        line.len() as int
    } else if line[from].ascii_character == ERASED {
        from
    } else {
        scan_from(line, from + 1)
    }
}

/// The console as a value: the cells of the grid by row and column, the
/// place of the cursor, and the colour attribute that written cells get.
pub struct Screen {
    pub cells: Seq<Seq<ScreenChar>>,
    pub row: int,
    pub column: int,
    pub color: ColorCode,
}

impl Screen {
    /// The grid has its fixed size and the cursor is on it. The column may
    /// be one past the last: the row is then full, and the next character
    /// placed goes to the next row.
    pub open spec fn wf(self) -> bool {
        &&& self.cells.len() == BUFFER_HEIGHT
        &&& forall|r: int|
            0 <= r < BUFFER_HEIGHT ==> (#[trigger] self.cells[r]).len() == BUFFER_WIDTH
        &&& 0 <= self.row < BUFFER_HEIGHT
        &&& 0 <= self.column <= BUFFER_WIDTH
    }

    /// A cell with character code `code` in this console's colours.
    pub open spec fn colored(self, code: u8) -> ScreenChar {
        ScreenChar { ascii_character: code, color_code: self.color }
    }

    /// The console with `cell` in row `row` and column `col`.
    pub open spec fn put(self, row: int, col: int, cell: ScreenChar) -> Screen {
        Screen { cells: self.cells.update(row, self.cells[row].update(col, cell)), ..self }
    }

    /// The console with every row but the first moved up by one. The first
    /// row is lost and the last row is left as it was.
    pub open spec fn shift_up(self) -> Screen {
        Screen {
            cells: Seq::new(
                self.cells.len(),
                |r: int| if r + 1 < self.cells.len() { self.cells[r + 1] } else { self.cells[r] },
            ),
            ..self
        }
    }

    /// The console with row `row` filled with spaces.
    pub open spec fn clear_row(self, row: int) -> Screen {
        Screen {
            cells: self.cells.update(
                row,
                Seq::new(BUFFER_WIDTH as nat, |c: int| self.colored(SPACE)),
            ),
            ..self
        }
    }

    /// The cursor goes to the start of the next row. From the last row
    /// the grid scrolls instead: the rows move up and the last is cleared.
    pub open spec fn new_line(self) -> Screen {
        if self.row == BUFFER_HEIGHT - 1 {
            Screen { column: 0, ..self.shift_up().clear_row(BUFFER_HEIGHT - 1) }
        } else {
            Screen { row: self.row + 1, column: 0, ..self }
        }
    }

    /// The character code `code` is placed at the cursor, which moves one
    /// column on. Where the row is full, the cursor first goes to a new line.
    pub open spec fn place(self, code: u8) -> Screen {
        let at = if self.column >= BUFFER_WIDTH { self.new_line() } else { self };
        Screen { column: at.column + 1, ..at.put(at.row, at.column, at.colored(code)) }
    }

    /// A newline starts a new line; any other byte is placed as it is.
    pub open spec fn write_byte(self, byte: u8) -> Screen {
        if byte == NEWLINE {
            self.new_line()
        } else {
            self.place(byte)
        }
    }

    /// The cell before the cursor is erased and the cursor moves back onto it.
    /// At the start of a row the cursor goes to where the content of the row
    /// above ends, and nothing is erased; at the start of the grid nothing
    /// changes.
    pub open spec fn backspace(self) -> Screen {
        if self.row == 0 && self.column == 0 {
            self
        } else if self.column == 0 {
            Screen { row: self.row - 1, column: content_end(self.cells[self.row - 1]), ..self }
        } else {
            Screen {
                column: self.column - 1,
                ..self.put(self.row, self.column - 1, self.colored(ERASED))
            }
        }
    }

    /// What one byte of the input does: a printable byte or a newline is
    /// written, a backspace erases, and any other byte is shown as the
    /// placeholder.
    pub open spec fn feed(self, byte: u8) -> Screen {
        if is_printable(byte) || byte == NEWLINE {
            self.write_byte(byte)
        } else if byte == BACKSPACE {
            self.backspace()
        } else {
            self.write_byte(PLACEHOLDER)
        }
    }

    /// What the bytes of `bytes` do, one after the other.
    pub open spec fn feed_all(self, bytes: Seq<u8>) -> Screen
        decreases bytes.len(),
    {
        if bytes.len() == 0 {
            self
        } else {
            self.feed_all(bytes.drop_last()).feed(bytes.last())
        }
    }
}

} // verus!
