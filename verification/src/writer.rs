//! The console writer: the cursor and the display cells it writes to.

use vstd::prelude::*;
use vstd::string::StringSliceAdditionalSpecFns;
use crate::buffer::{Buffer, ScreenChar, BUFFER_HEIGHT, BUFFER_WIDTH};
use crate::color::ColorCode;
use crate::lemmas::lemma_content_end_unique;
use crate::screen::{content_end, Screen, BACKSPACE, ERASED, NEWLINE, PLACEHOLDER, SPACE};

verus! {

/// The writer of the console. It owns the display cells for as long as it
/// lives, keeps the cursor, and draws every cell in one fixed pair of colours.
pub struct Writer {
    pub column_position: usize,
    pub row_position: usize,
    pub color_code: ColorCode,
    pub buffer: &'static mut Buffer,
    pub input_mode: bool,
}

impl View for Writer {
    type V = Screen;

    /// The console that this writer stands for: its cells, cursor and colours.
    open spec fn view(&self) -> Screen {
        Screen {
            cells: self.buffer@,
            row: self.row_position as int,
            column: self.column_position as int,
            color: self.color_code,
        }
    }
}

impl Writer {
    /// The cursor is on the grid: the row is one of the grid's, and the column
    /// is one of the grid's or one past the last.
    pub open spec fn wf(&self) -> bool {
        &&& self.row_position < BUFFER_HEIGHT
        &&& self.column_position <= BUFFER_WIDTH
    }

    /// A writer on `buffer` that draws in `color_code`, with the cursor at the
    /// start of the grid. The cells are left as they are.
    pub fn new(buffer: &'static mut Buffer, color_code: ColorCode) -> (writer: Writer)
        ensures
            writer@ == (Screen { cells: old(buffer)@, row: 0, column: 0, color: color_code }),
            !writer.input_mode,
            writer.wf(),
    {
        Writer { column_position: 0, row_position: 0, color_code, buffer, input_mode: false }
    }

    /// Fills row `row` with spaces in the writer's colours.
    pub fn clear_row(&mut self, row: usize)
        requires
            row < BUFFER_HEIGHT,
        ensures
            final(self)@ == old(self)@.clear_row(row as int),
            final(self).input_mode == old(self).input_mode,
    {
        let blank = ScreenChar { ascii_character: SPACE, color_code: self.color_code };
        let mut col: usize = 0;
        while col < BUFFER_WIDTH
            invariant
                row < BUFFER_HEIGHT,
                col <= BUFFER_WIDTH,
                blank == old(self)@.colored(SPACE),
                self.column_position == old(self).column_position,
                self.row_position == old(self).row_position,
                self.color_code == old(self).color_code,
                self.input_mode == old(self).input_mode,
                forall|r: int|
                    0 <= r < BUFFER_HEIGHT && r != row ==> self.buffer@[r] == old(self).buffer@[r],
                forall|c: int| 0 <= c < col ==> self.buffer@[row as int][c] == blank,
            decreases BUFFER_WIDTH - col,
        {
            self.buffer.write(row, col, blank);
            col += 1;
        }
        assert(self@.cells =~~= old(self)@.clear_row(row as int).cells);
    }

    /// Moves every row but the first up by one. The first row is lost; the
    /// last row is left as it was.
    pub fn shift_up(&mut self)
        ensures
            final(self)@ == old(self)@.shift_up(),
            final(self).input_mode == old(self).input_mode,
    {
        let mut row: usize = 1;
        while row < BUFFER_HEIGHT
            invariant
                1 <= row <= BUFFER_HEIGHT,
                self.column_position == old(self).column_position,
                self.row_position == old(self).row_position,
                self.color_code == old(self).color_code,
                self.input_mode == old(self).input_mode,
                forall|r: int| 0 <= r < row - 1 ==> self.buffer@[r] == old(self).buffer@[r + 1],
                forall|r: int|
                    row - 1 <= r < BUFFER_HEIGHT ==> self.buffer@[r] == old(self).buffer@[r],
            decreases BUFFER_HEIGHT - row,
        {
            let mut col: usize = 0;
            while col < BUFFER_WIDTH
                invariant
                    1 <= row < BUFFER_HEIGHT,
                    col <= BUFFER_WIDTH,
                    self.column_position == old(self).column_position,
                    self.row_position == old(self).row_position,
                    self.color_code == old(self).color_code,
                    self.input_mode == old(self).input_mode,
                    forall|r: int|
                        0 <= r < row - 1 ==> self.buffer@[r] == old(self).buffer@[r + 1],
                    forall|r: int|
                        row <= r < BUFFER_HEIGHT ==> self.buffer@[r] == old(self).buffer@[r],
                    forall|c: int|
                        0 <= c < col ==> #[trigger] self.buffer@[row - 1][c] == old(
                            self,
                        ).buffer@[row as int][c],
                    forall|c: int|
                        col <= c < BUFFER_WIDTH ==> #[trigger] self.buffer@[row - 1][c] == old(
                            self,
                        ).buffer@[row - 1][c],
                decreases BUFFER_WIDTH - col,
            {
                let character = self.buffer.read(row, col);
                self.buffer.write(row - 1, col, character);
                col += 1;
            }
            assert(self.buffer@[row - 1] =~= old(self).buffer@[row as int]);
            row += 1;
        }
        assert(self@.cells =~~= old(self)@.shift_up().cells);
    }

    /// Starts a new line: the cursor goes to the first column of the next
    /// row. On the last row the grid scrolls by one row instead, and the
    /// cursor stays on the last row, which is cleared.
    pub fn new_line(&mut self)
        requires
            old(self).wf(),
        ensures
            final(self)@ == old(self)@.new_line(),
            final(self).input_mode == old(self).input_mode,
            final(self).wf(),
    {
        if self.row_position == BUFFER_HEIGHT - 1 {
            self.shift_up();
            self.clear_row(BUFFER_HEIGHT - 1);
        } else {
            self.row_position += 1;
        }
        self.column_position = 0;
    }

    /// Writes one byte at the cursor. A newline starts a new line. Any other
    /// byte is placed in the cell at the cursor, in the writer's colours, and
    /// the cursor moves one column on; where the row was full before, the
    /// byte goes to the start of a new line.
    pub fn write_byte(&mut self, byte: u8)
        requires
            old(self).wf(),
        ensures
            final(self)@ == old(self)@.write_byte(byte),
            final(self).input_mode == old(self).input_mode,
            final(self).wf(),
    {
        if byte == NEWLINE {
            self.new_line();
        } else {
            if self.column_position >= BUFFER_WIDTH {
                self.new_line();
            }
            let row = self.row_position;
            let col = self.column_position;
            let color_code = self.color_code;
            self.buffer.write(row, col, ScreenChar { ascii_character: byte, color_code });
            self.column_position += 1;
        }
    }

    /// The column at which the content of row `row` ends: that of the first
    /// erased cell of the row, or the width of the grid where the row has
    /// none.
    pub fn get_last_col(&self, row: usize) -> (col: usize)
        requires
            row < BUFFER_HEIGHT,
        ensures
            col == content_end(self@.cells[row as int]),
            col <= BUFFER_WIDTH,
            forall|c: int|
                0 <= c < col ==> (#[trigger] self@.cells[row as int][c]).ascii_character != ERASED,
            col < BUFFER_WIDTH ==> self@.cells[row as int][col as int].ascii_character == ERASED,
    {
        let ghost line = self@.cells[row as int];
        let mut col: usize = 0;
        while col < BUFFER_WIDTH && self.buffer.read(row, col).ascii_character != ERASED
            invariant
                row < BUFFER_HEIGHT,
                col <= BUFFER_WIDTH,
                line == self.buffer@[row as int],
                forall|c: int| 0 <= c < col ==> (#[trigger] line[c]).ascii_character != ERASED,
            decreases BUFFER_WIDTH - col,
        {
            col += 1;
        }
        proof {
            lemma_content_end_unique(line, col as int);
        }
        col
    }

    /// Erases the cell before the cursor and moves the cursor back onto it.
    /// At the start of a row below the first, the cursor goes up to where the
    /// content of the row above ends, and no cell changes. At the start of
    /// the grid nothing happens.
    pub fn backspace(&mut self)
        requires
            old(self).wf(),
        ensures
            final(self)@ == old(self)@.backspace(),
            final(self).input_mode == old(self).input_mode,
            final(self).wf(),
            old(self).row_position == 0 && old(self).column_position == 0 ==> final(self)@
                == old(self)@,
    {
        if self.row_position == 0 && self.column_position == 0 {
            return ;
        }
        if self.column_position == 0 {
            self.row_position -= 1;
            self.column_position = self.get_last_col(self.row_position);
            return ;
        }
        let blank = ScreenChar { ascii_character: ERASED, color_code: self.color_code };
        self.buffer.write(self.row_position, self.column_position - 1, blank);
        self.column_position -= 1;
    }

    /// Writes the bytes of `s`, as its UTF-8 encoding gives them, in their
    /// order. A printable ASCII byte or a newline is written as it is, a
    /// backspace erases the cell before the cursor, and every other byte is
    /// shown as the placeholder. No input fails.
    pub fn write_string(&mut self, s: &str)
        requires
            old(self).wf(),
        ensures
            final(self)@ == old(self)@.feed_all(s.spec_bytes()),
            final(self).input_mode == old(self).input_mode,
            final(self).wf(),
    {
        let bytes = s.as_bytes();
        let mut i: usize = 0;
        while i < bytes.len()
            invariant
                i <= bytes.len(),
                bytes@ == s.spec_bytes(),
                self.wf(),
                self@ == old(self)@.feed_all(bytes@.take(i as int)),
                self.input_mode == old(self).input_mode,
            decreases bytes.len() - i,
        {
            let byte = bytes[i];
            proof {
                assert(bytes@.take(i + 1).drop_last() =~= bytes@.take(i as int));
            }
            if (0x20 <= byte && byte <= 0x7e) || byte == NEWLINE {
                self.write_byte(byte);
            } else if byte == BACKSPACE {
                self.backspace();
            } else {
                self.write_byte(PLACEHOLDER);
            }
            i += 1;
        }
        assert(bytes@.take(i as int) =~= bytes@);
    }
}

} // verus!
