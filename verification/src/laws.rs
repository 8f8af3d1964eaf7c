//! Laws of the writer: proved consequences of the transition functions
//! that every state of the screen obeys.

use crate::buffer::{blank_row, cell, ScreenChar, BUFFER_HEIGHT, BUFFER_WIDTH};
use crate::color::ColorCode;
use crate::writer::{
    spec_clear_row, spec_new_line, spec_set_color, spec_substitute, spec_write_byte,
    spec_write_bytes, wf_model, spec_renderable, WriterModel, NEWLINE,
};
use vstd::prelude::*;

verus! {

/// Every write step keeps the writer state well formed.
pub proof fn lemma_write_byte_wf(m: WriterModel, b: u8)
    requires
        wf_model(m),
    ensures
        wf_model(spec_write_byte(m, b)),
{
    lemma_new_line_wf(m);
}

/// A line feed keeps the writer state well formed.
pub proof fn lemma_new_line_wf(m: WriterModel)
    requires
        wf_model(m),
    ensures
        wf_model(spec_new_line(m)),
{
}

/// Writing a printable byte places exactly that byte, under the active
/// color attribute, in the cell just behind the cursor's new position.
pub proof fn lemma_printable_byte_written(m: WriterModel, b: u8)
    requires
        wf_model(m),
        0x20 <= b <= 0x7e,
    ensures
        ({
            let m2 = spec_write_byte(m, b);
            m2.grid[m2.row][m2.col - 1] == cell(b, m.color)
        }),
{
    lemma_new_line_wf(m);
}

/// A byte outside the printable range (and not the newline) is never
/// rendered as itself: the text sink writes the placeholder glyph in its
/// place, at the cell just behind the cursor's new position.
pub proof fn lemma_unrenderable_substituted(m: WriterModel, b: u8)
    requires
        wf_model(m),
        !spec_renderable(b),
    ensures
        spec_substitute(b) == 0x7e,
        ({
            let m2 = spec_write_bytes(m, seq![b]);
            m2.grid[m2.row][m2.col - 1] == cell(0x7e, m.color)
        }),
{
    assert(seq![b].drop_last() =~= Seq::<u8>::empty());
    assert(spec_write_bytes(m, Seq::<u8>::empty()) == m);
    assert(seq![b].last() == b);
    assert(spec_write_bytes(m, seq![b]) == spec_write_byte(m, 0x7e));
    lemma_printable_byte_written(m, 0x7e);
}

/// Writing printable bytes that fit on the current line fills consecutive
/// cells of that line under the active color, and touches no other cell.
pub proof fn lemma_fill_line(m: WriterModel, bs: Seq<u8>)
    requires
        wf_model(m),
        forall|i: int| 0 <= i < bs.len() ==> 0x20 <= #[trigger] bs[i] <= 0x7e,
        m.col + bs.len() <= BUFFER_WIDTH,
    ensures
        ({
            let m2 = spec_write_bytes(m, bs);
            &&& wf_model(m2)
            &&& m2.row == m.row
            &&& m2.col == m.col + bs.len()
            &&& m2.color == m.color
            &&& forall|r: int| 0 <= r < BUFFER_HEIGHT && r != m.row ==> m2.grid[r] == m.grid[r]
            &&& forall|j: int|
                0 <= j < bs.len() ==> m2.grid[m.row][m.col + j] == cell(bs[j], m.color)
            &&& forall|j: int|
                0 <= j < BUFFER_WIDTH && !(m.col <= j < m.col + bs.len()) ==> m2.grid[m.row][j]
                    == m.grid[m.row][j]
        }),
    decreases bs.len(),
{
    if bs.len() > 0 {
        let pre = bs.drop_last();
        let b = bs.last();
        lemma_fill_line(m, pre);
        let m1 = spec_write_bytes(m, pre);
        assert(0x20 <= bs[bs.len() - 1] <= 0x7e);
        assert(spec_substitute(b) == b);
        assert(m1.col == m.col + pre.len() < BUFFER_WIDTH);
        let m2 = spec_write_byte(m1, b);
        assert(spec_write_bytes(m, bs) == m2);
        assert(m1.grid[m.row].len() == BUFFER_WIDTH);
        assert(m2.grid == m1.grid.update(m.row, m1.grid[m.row].update(m1.col, cell(b, m.color))));
        assert forall|j: int| 0 <= j < bs.len() implies m2.grid[m.row][m.col + j] == cell(
            bs[j],
            m.color,
        ) by {
            if j < pre.len() {
                assert(pre[j] == bs[j]);
                assert(m2.grid[m.row][m.col + j] == m1.grid[m.row][m.col + j]);
            }
        }
    }
}

/// When the current line is full (the cursor column stands at the right
/// edge), the next printable byte does not land out of bounds: the line
/// wraps first, and the byte appears at column 0 of the row below — of the
/// same, last row after a scroll.
pub proof fn lemma_wrap_at_line_end(m: WriterModel, b: u8)
    requires
        wf_model(m),
        m.col == BUFFER_WIDTH,
        0x20 <= b <= 0x7e,
    ensures
        ({
            let m2 = spec_write_byte(m, b);
            &&& m2.col == 1
            &&& m2.row == if m.row < BUFFER_HEIGHT - 1 {
                m.row + 1
            } else {
                m.row as int
            }
            &&& m2.grid[m2.row][0] == cell(b, m.color)
        }),
{
    lemma_new_line_wf(m);
}

/// Writing exactly one full line of printable bytes and then one more:
/// the extra byte appears at column 0 of the next row, not at an
/// out-of-bounds column.
pub proof fn lemma_overflow_wraps(m: WriterModel, bs: Seq<u8>, b: u8)
    requires
        wf_model(m),
        m.col == 0,
        bs.len() == BUFFER_WIDTH,
        forall|i: int| 0 <= i < bs.len() ==> 0x20 <= #[trigger] bs[i] <= 0x7e,
        0x20 <= b <= 0x7e,
    ensures
        ({
            let m2 = spec_write_bytes(m, bs.push(b));
            &&& m2.col == 1
            &&& m2.row == if m.row < BUFFER_HEIGHT - 1 {
                m.row + 1
            } else {
                m.row as int
            }
            &&& m2.grid[m2.row][0] == cell(b, m.color)
        }),
{
    lemma_fill_line(m, bs);
    assert(bs.push(b).drop_last() =~= bs);
    assert(bs.push(b).last() == b);
    lemma_wrap_at_line_end(spec_write_bytes(m, bs), b);
}

/// Writing a newline byte always resets the column to 0 and leaves the
/// row unchanged or exactly one lower, never more.
pub proof fn lemma_newline_cursor(m: WriterModel)
    requires
        wf_model(m),
    ensures
        spec_write_byte(m, NEWLINE).col == 0,
        spec_write_byte(m, NEWLINE).row == m.row || spec_write_byte(m, NEWLINE).row == m.row + 1,
{
}

/// A newline written on the last row scrolls: every row above the last
/// takes what was previously one row below it, the last row becomes
/// blank, and the top row's prior content leaves the screen.
pub proof fn lemma_scroll_discards_top(m: WriterModel)
    requires
        wf_model(m),
        m.row == BUFFER_HEIGHT - 1,
    ensures
        ({
            let m2 = spec_write_byte(m, NEWLINE);
            &&& forall|r: int| 0 <= r < BUFFER_HEIGHT - 1 ==> (#[trigger] m2.grid[r]) == m.grid[r + 1]
            &&& m2.grid[BUFFER_HEIGHT - 1] == blank_row()
            &&& m2.row == m.row
            &&& m2.col == 0
        }),
{
}

/// The cursor row never moves back up, and once it has reached the last
/// row it stays pinned there: from then on the bottommost row is always
/// the one being written to.
pub proof fn lemma_cursor_row_monotone(m: WriterModel, b: u8)
    requires
        wf_model(m),
    ensures
        spec_write_byte(m, b).row >= m.row,
        m.row == BUFFER_HEIGHT - 1 ==> spec_write_byte(m, b).row == BUFFER_HEIGHT - 1,
{
}

/// Clearing a row twice produces the same grid as clearing it once: all
/// its cells blank, under the default attribute.
pub proof fn lemma_clear_row_idempotent(grid: Seq<Seq<ScreenChar>>, y: int)
    requires
        grid.len() == BUFFER_HEIGHT,
        0 <= y < BUFFER_HEIGHT,
    ensures
        spec_clear_row(spec_clear_row(grid, y), y) == spec_clear_row(grid, y),
{
    assert(spec_clear_row(spec_clear_row(grid, y), y) =~~= spec_clear_row(grid, y));
}

/// Color-state persistence: after setting attribute `a` and writing two
/// printable bytes with no color change in between, both written cells
/// carry attribute `a` — the second at the cell just behind the cursor,
/// the first where it came to rest, one row higher if the second write
/// scrolled the screen.
pub proof fn lemma_color_persists(m: WriterModel, a: ColorCode, x: u8, y: u8)
    requires
        wf_model(m),
        0x20 <= x <= 0x7e,
        0x20 <= y <= 0x7e,
    ensures
        ({
            let m1 = spec_write_byte(spec_set_color(m, a), x);
            let m2 = spec_write_byte(m1, y);
            let xrow = if m1.col == BUFFER_WIDTH && m1.row == BUFFER_HEIGHT - 1 {
                m1.row - 1
            } else {
                m1.row as int
            };
            &&& m2.grid[m2.row][m2.col - 1].color_code == a
            &&& m2.grid[xrow][m1.col - 1].color_code == a
        }),
{
    let ma = spec_set_color(m, a);
    lemma_write_byte_wf(ma, x);
    lemma_printable_byte_written(ma, x);
    let m1 = spec_write_byte(ma, x);
    lemma_write_byte_wf(m1, y);
    lemma_printable_byte_written(m1, y);
}

} // verus!
