//! What holds of the console whatever is written to it.

use vstd::prelude::*;
use crate::buffer::{ScreenChar, BUFFER_HEIGHT, BUFFER_WIDTH};
use crate::screen::{
    all_printable, content_end, glyph, is_printable, scan_from, Screen, BACKSPACE, ERASED,
    NEWLINE, PLACEHOLDER, SPACE,
};

verus! {

/// A scan for the end of a row's content stays on the row, passes over no
/// erased cell, and stops on one unless it reaches the end of the row.
proof fn lemma_scan_from(line: Seq<ScreenChar>, from: int)
    requires
        0 <= from <= line.len(),
    ensures
        from <= scan_from(line, from) <= line.len(),
        forall|c: int|
            from <= c < scan_from(line, from) ==> (#[trigger] line[c]).ascii_character != ERASED,
        scan_from(line, from) < line.len() ==> line[scan_from(line, from)].ascii_character
            == ERASED,
    decreases line.len() - from,
{
    if from < line.len() && line[from].ascii_character != ERASED {
        lemma_scan_from(line, from + 1);
    }
}

/// The content of a row ends at its first erased cell, or at the end of the
/// row where no cell of it is erased.
pub proof fn lemma_content_end(line: Seq<ScreenChar>)
    ensures
        0 <= content_end(line) <= line.len(),
        forall|c: int|
            0 <= c < content_end(line) ==> (#[trigger] line[c]).ascii_character != ERASED,
        content_end(line) < line.len() ==> line[content_end(line)].ascii_character == ERASED,
{
    lemma_scan_from(line, 0);
}

/// Only one column is the end of a row's content: a column on the row, or
/// just behind it, that has no erased cell before it, and is behind the row
/// or holds an erased cell.
pub proof fn lemma_content_end_unique(line: Seq<ScreenChar>, end: int)
    requires
        0 <= end <= line.len(),
        forall|c: int| 0 <= c < end ==> (#[trigger] line[c]).ascii_character != ERASED,
        end < line.len() ==> line[end].ascii_character == ERASED,
    ensures
        end == content_end(line),
{
    lemma_content_end(line);
}

/// The cursor never leaves the grid: a console that is well formed stays so
/// under every byte.
pub proof fn lemma_feed_wf(s: Screen, byte: u8)
    requires
        s.wf(),
    ensures
        s.feed(byte).wf(),
        s.feed(byte).color == s.color,
{
    if s.row > 0 {
        lemma_content_end(s.cells[s.row - 1]);
    }
}

/// The cursor never leaves the grid, whatever bytes are written.
pub proof fn lemma_feed_all_wf(s: Screen, bytes: Seq<u8>)
    requires
        s.wf(),
    ensures
        s.feed_all(bytes).wf(),
        s.feed_all(bytes).color == s.color,
    decreases bytes.len(),
{
    if bytes.len() > 0 {
        lemma_feed_all_wf(s, bytes.drop_last());
        lemma_feed_wf(s.feed_all(bytes.drop_last()), bytes.last());
    }
}

/// Writing `first` and then `second` is writing the two in one piece.
pub proof fn lemma_feed_all_concat(s: Screen, first: Seq<u8>, second: Seq<u8>)
    ensures
        s.feed_all(first + second) == s.feed_all(first).feed_all(second),
    decreases second.len(),
{
    if second.len() == 0 {
        assert(first + second =~= first);
    } else {
        assert((first + second).drop_last() =~= first + second.drop_last());
        lemma_feed_all_concat(s, first, second.drop_last());
    }
}

/// Writing a single byte is feeding it.
pub proof fn lemma_feed_all_one(s: Screen, byte: u8)
    ensures
        s.feed_all(seq![byte]) == s.feed(byte),
{
    assert(seq![byte].drop_last() =~= Seq::<u8>::empty());
    reveal_with_fuel(Screen::feed_all, 2);
}

/// Printable bytes that fit in the rest of the row are written where the
/// cursor stands, one column after the other, each as itself and in the
/// console's colours. The cursor stays in the row and ends behind the last
/// of them, and no other cell changes.
pub proof fn lemma_write_in_row(s: Screen, bytes: Seq<u8>)
    requires
        s.wf(),
        all_printable(bytes),
        s.column + bytes.len() <= BUFFER_WIDTH,
    ensures
        s.feed_all(bytes).wf(),
        s.feed_all(bytes).row == s.row,
        s.feed_all(bytes).column == s.column + bytes.len(),
        s.feed_all(bytes).color == s.color,
        forall|i: int|
            0 <= i < bytes.len() ==> #[trigger] s.feed_all(bytes).cells[s.row][s.column + i]
                == s.colored(bytes[i]),
        forall|r: int, c: int|
            0 <= r < BUFFER_HEIGHT && 0 <= c < BUFFER_WIDTH && !(r == s.row && s.column <= c
                < s.column + bytes.len()) ==> #[trigger] s.feed_all(bytes).cells[r][c]
                == s.cells[r][c],
    decreases bytes.len(),
{
    if bytes.len() > 0 {
        let front = bytes.drop_last();
        let before = s.feed_all(front);
        lemma_write_in_row(s, front);
        let after = before.feed(bytes.last());
        assert(is_printable(bytes[bytes.len() - 1]));
        assert(after == Screen {
            column: before.column + 1,
            ..before.put(before.row, before.column, before.colored(bytes.last()))
        });
        assert forall|i: int| 0 <= i < bytes.len() implies #[trigger] after.cells[s.row][s.column
            + i] == s.colored(bytes[i]) by {
            if i < front.len() {
                assert(before.cells[s.row][s.column + i] == s.colored(front[i]));
            }
        }
        assert forall|r: int, c: int|
            0 <= r < BUFFER_HEIGHT && 0 <= c < BUFFER_WIDTH && !(r == s.row && s.column <= c
                < s.column + bytes.len()) implies #[trigger] after.cells[r][c]
            == s.cells[r][c] by {
            assert(before.cells[r][c] == s.cells[r][c]);
        }
    }
}

/// Printable bytes written from the start of a row are read back from that
/// row as they were written: the same bytes in the same order, from the first
/// column on. This holds of as many bytes as a row has columns; more of them
/// go on in the next row.
pub proof fn lemma_printable_round_trip(s: Screen, bytes: Seq<u8>)
    requires
        s.wf(),
        s.column == 0,
        all_printable(bytes),
        bytes.len() <= BUFFER_WIDTH,
    ensures
        s.feed_all(bytes).row == s.row,
        s.feed_all(bytes).column == bytes.len(),
        forall|i: int|
            0 <= i < bytes.len() ==> (#[trigger] s.feed_all(
                bytes,
            ).cells[s.row][i]).ascii_character == bytes[i],
        s.feed_all(bytes).cells[s.row].take(bytes.len() as int).map_values(
            |cell: ScreenChar| cell.ascii_character,
        ) == bytes,
{
    lemma_write_in_row(s, bytes);
    let t = s.feed_all(bytes);
    assert forall|i: int| 0 <= i < bytes.len() implies (#[trigger] t.cells[s.row][i])
        .ascii_character == bytes[i] by {
        assert(t.cells[s.row][s.column + i] == s.colored(bytes[i]));
    }
    assert(t.cells[s.row].take(bytes.len() as int).map_values(
        |cell: ScreenChar| cell.ascii_character,
    ) =~= bytes);
}

/// A byte written behind a full row goes to the first column of the next
/// row. After a row of printable bytes and one more byte that is neither a
/// newline nor a backspace, the cursor is in the second column of the row
/// below the one it started in, the extra byte's glyph is in that row's first
/// column, and the row above it holds the full row that was written. From
/// the last row of the grid the grid has scrolled, and the row below is
/// again the last.
pub proof fn lemma_wrap_boundary(s: Screen, line: Seq<u8>, extra: u8)
    requires
        s.wf(),
        s.column == 0,
        all_printable(line),
        line.len() == BUFFER_WIDTH,
        extra != NEWLINE,
        extra != BACKSPACE,
    ensures
        ({
            let t = s.feed_all(line.push(extra));
            let next = if s.row == BUFFER_HEIGHT - 1 {
                s.row
            } else {
                s.row + 1
            };
            &&& t.row == next
            &&& t.column == 1
            &&& t.cells[t.row][0] == s.colored(glyph(extra))
            &&& forall|i: int|
                0 <= i < BUFFER_WIDTH ==> #[trigger] t.cells[t.row - 1][i] == s.colored(line[i])
        }),
{
    let full = s.feed_all(line);
    lemma_write_in_row(s, line);
    assert(line.push(extra).drop_last() =~= line);
    let t = full.feed(extra);
    assert(t == s.feed_all(line.push(extra)));
    assert(t == full.place(glyph(extra)));
    assert forall|i: int| 0 <= i < BUFFER_WIDTH implies #[trigger] t.cells[t.row - 1][i]
        == s.colored(line[i]) by {
        assert(full.cells[s.row][s.column + i] == s.colored(line[i]));
    }
}

/// A new line on the last row scrolls the grid: every row takes the content
/// of the row below it, the last row is filled with spaces in the console's
/// colours, and the cursor stands at the start of the last row.
pub proof fn lemma_scroll_shifts_rows(s: Screen)
    requires
        s.wf(),
        s.row == BUFFER_HEIGHT - 1,
    ensures
        s.new_line().wf(),
        s.new_line().row == BUFFER_HEIGHT - 1,
        s.new_line().column == 0,
        forall|r: int|
            0 <= r < BUFFER_HEIGHT - 1 ==> #[trigger] s.new_line().cells[r] == s.cells[r + 1],
        forall|c: int|
            0 <= c < BUFFER_WIDTH ==> #[trigger] s.new_line().cells[BUFFER_HEIGHT - 1][c]
                == s.colored(SPACE),
{
}

/// What the first row held is lost in a scroll: two consoles that differ in
/// their first rows only, and in the column of the cursor, are the same
/// after a new line on the last row.
pub proof fn lemma_scroll_forgets_top_row(a: Screen, b: Screen)
    requires
        a.wf(),
        b.wf(),
        a.row == BUFFER_HEIGHT - 1,
        b.row == BUFFER_HEIGHT - 1,
        a.color == b.color,
        forall|r: int| 1 <= r < BUFFER_HEIGHT ==> #[trigger] a.cells[r] == b.cells[r],
    ensures
        a.new_line() == b.new_line(),
{
    let x = a.new_line();
    let y = b.new_line();
    assert forall|r: int| 0 <= r < BUFFER_HEIGHT implies #[trigger] x.cells[r] == y.cells[r] by {
        if r < BUFFER_HEIGHT - 1 {
            assert(a.cells[r + 1] == b.cells[r + 1]);
        } else {
            assert(x.cells[r] =~= y.cells[r]);
        }
    }
    assert(x.cells =~= y.cells);
}

/// One more line written when the grid is full to its last cell scrolls the
/// grid. With the cursor behind the last column of the last row, printable
/// bytes, at least one and at most a row of them, move every row up by one,
/// so that the first is lost, and stand alone in the last row: the bytes from
/// the first column on, and spaces behind them.
pub proof fn lemma_scroll_discards_top_row(s: Screen, line: Seq<u8>)
    requires
        s.wf(),
        s.row == BUFFER_HEIGHT - 1,
        s.column == BUFFER_WIDTH,
        all_printable(line),
        0 < line.len() <= BUFFER_WIDTH,
    ensures
        s.feed_all(line) == s.new_line().feed_all(line),
        s.feed_all(line).row == BUFFER_HEIGHT - 1,
        s.feed_all(line).column == line.len(),
        forall|r: int|
            0 <= r < BUFFER_HEIGHT - 1 ==> #[trigger] s.feed_all(line).cells[r] == s.cells[r + 1],
        forall|c: int|
            0 <= c < line.len() ==> #[trigger] s.feed_all(line).cells[BUFFER_HEIGHT - 1][c]
                == s.colored(line[c]),
        forall|c: int|
            line.len() <= c < BUFFER_WIDTH ==> #[trigger] s.feed_all(line).cells[BUFFER_HEIGHT
                - 1][c] == s.colored(SPACE),
{
    let head = seq![line[0]];
    let rest = line.skip(1);
    assert(line =~= head + rest);
    lemma_feed_all_concat(s, head, rest);
    lemma_feed_all_one(s, line[0]);
    let n = s.new_line();
    lemma_feed_all_concat(n, head, rest);
    lemma_feed_all_one(n, line[0]);
    assert(is_printable(line[0]));
    assert(s.feed(line[0]) == n.feed(line[0]));
    lemma_scroll_shifts_rows(s);
    lemma_write_in_row(n, line);
    let t = n.feed_all(line);
    assert forall|r: int| 0 <= r < BUFFER_HEIGHT - 1 implies #[trigger] t.cells[r] == s.cells[r
        + 1] by {
        assert forall|c: int| 0 <= c < BUFFER_WIDTH implies t.cells[r][c] == s.cells[r + 1][c] by {
            assert(t.cells[r][c] == n.cells[r][c]);
        }
        assert(t.cells[r] =~= s.cells[r + 1]);
    }
    assert forall|c: int| 0 <= c < line.len() implies #[trigger] t.cells[BUFFER_HEIGHT - 1][c]
        == s.colored(line[c]) by {
        assert(t.cells[n.row][n.column + c] == n.colored(line[c]));
    }
    assert forall|c: int| line.len() <= c < BUFFER_WIDTH implies #[trigger] t.cells[BUFFER_HEIGHT
        - 1][c] == s.colored(SPACE) by {
        assert(t.cells[BUFFER_HEIGHT - 1][c] == n.cells[BUFFER_HEIGHT - 1][c]);
    }
}

/// A backspace at the start of the grid changes nothing: neither a cell nor
/// the cursor.
pub proof fn lemma_backspace_at_origin(s: Screen)
    requires
        s.row == 0,
        s.column == 0,
    ensures
        s.backspace() == s,
        s.feed(BACKSPACE) == s,
        s.feed_all(seq![BACKSPACE]) == s,
{
    lemma_feed_all_one(s, BACKSPACE);
}

/// A backspace takes back the byte that was placed last. After a byte that
/// is neither a newline nor a backspace, and one backspace, the cursor stands
/// where the byte was placed, that cell is erased, and every other cell is as
/// the byte's placing left it. Where the row was not full before, the cursor
/// is back where it was, and only the cell under it has changed.
pub proof fn lemma_backspace_undoes_write(s: Screen, byte: u8)
    requires
        s.wf(),
        byte != NEWLINE,
        byte != BACKSPACE,
    ensures
        ({
            let written = s.feed(byte);
            let erased = written.feed(BACKSPACE);
            &&& written.cells[written.row][written.column - 1] == s.colored(glyph(byte))
            &&& erased.row == written.row
            &&& erased.column == written.column - 1
            &&& erased.cells == written.put(
                written.row,
                written.column - 1,
                s.colored(ERASED),
            ).cells
            &&& erased.cells[erased.row][erased.column] == s.colored(ERASED)
            &&& s.column < BUFFER_WIDTH ==> {
                &&& erased.row == s.row
                &&& erased.column == s.column
                &&& erased.cells == s.put(s.row, s.column, s.colored(ERASED)).cells
            }
        }),
{
    let written = s.feed(byte);
    let erased = written.feed(BACKSPACE);
    assert(written == s.place(glyph(byte)));
    assert(erased == written.backspace());
    if s.column < BUFFER_WIDTH {
        assert(erased.cells =~~= s.put(s.row, s.column, s.colored(ERASED)).cells);
    }
}

/// A byte that the display cannot show is shown as the placeholder. A byte
/// that is neither printable nor a newline nor a backspace is placed as the
/// placeholder is: its glyph stands in the cell where the byte was placed,
/// and the cursor is one column behind it. Where the row was not full, that
/// cell is the one the cursor stood on.
pub proof fn lemma_unsupported_byte_substitution(s: Screen, byte: u8)
    requires
        s.wf(),
        !is_printable(byte),
        byte != NEWLINE,
        byte != BACKSPACE,
    ensures
        ({
            let t = s.feed(byte);
            &&& t == s.feed(PLACEHOLDER)
            &&& t == s.place(PLACEHOLDER)
            &&& t.cells[t.row][t.column - 1] == s.colored(PLACEHOLDER)
            &&& t.column == if s.column < BUFFER_WIDTH {
                s.column + 1
            } else {
                1
            }
            &&& s.column < BUFFER_WIDTH ==> {
                &&& t.row == s.row
                &&& t.cells[s.row][s.column] == s.colored(PLACEHOLDER)
            }
        }),
{
}

} // verus!
