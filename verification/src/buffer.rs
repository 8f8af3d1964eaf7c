//! The screen's cell grid and its single cells.

use crate::color::{default_color_code, ColorCode};
use vstd::prelude::*;

verus! {

/// Number of character rows on the screen.
pub const BUFFER_HEIGHT: usize = 25;

/// Number of character columns on the screen.
pub const BUFFER_WIDTH: usize = 80;

/// One cell of the text buffer: a character code and its color attribute.
#[derive(Clone, Copy, PartialEq, Eq, Structural, Debug)]
pub struct ScreenChar {
    pub ascii_value: u8,
    pub color_code: ColorCode,
}

/// The cell holding character code `a` drawn with attribute `c`.
pub open spec fn cell(a: u8, c: ColorCode) -> ScreenChar {
    ScreenChar { ascii_value: a, color_code: c }
}

/// A blank cell: the null character under the default attribute.
pub open spec fn blank_char() -> ScreenChar {
    cell(0, default_color_code())
}

/// One full row of blank cells.
pub open spec fn blank_row() -> Seq<ScreenChar> {
    Seq::new(BUFFER_WIDTH as nat, |x: int| blank_char())
}

/// A fully blank grid of `BUFFER_HEIGHT` rows.
pub open spec fn blank_grid() -> Seq<Seq<ScreenChar>> {
    Seq::new(BUFFER_HEIGHT as nat, |y: int| blank_row())
}

impl ScreenChar {
    /// The two bytes of the hardware wire format: the character code first,
    /// the attribute byte second.
    pub fn to_bytes(self) -> (r: (u8, u8))
        ensures
            r.0 == self.ascii_value,
            r.1 == self.color_code.0,
    {
        (self.ascii_value, self.color_code.0)
    }
}

/// The screen's cell grid: `BUFFER_HEIGHT` rows of `BUFFER_WIDTH` cells.
///
/// On the target machine this data is a view over a fixed memory-mapped
/// address and every access is an observable side effect; here the grid is
/// held as ordinary rows of cells, and the hardware-facing side of a program
/// copies them out through its own volatile stores.
pub struct VgaBuffer {
    rows: Vec<Vec<ScreenChar>>,
}

impl View for VgaBuffer {
    type V = Seq<Seq<ScreenChar>>;

    closed spec fn view(&self) -> Seq<Seq<ScreenChar>> {
        Seq::new(self.rows@.len(), |y: int| self.rows@[y]@)
    }
}

impl VgaBuffer {
    /// The grid has exactly `BUFFER_HEIGHT` rows of `BUFFER_WIDTH` cells.
    pub open spec fn wf(&self) -> bool {
        &&& self@.len() == BUFFER_HEIGHT
        &&& forall|y: int| 0 <= y < BUFFER_HEIGHT ==> (#[trigger] self@[y]).len() == BUFFER_WIDTH
    }

    /// A fully blank grid.
    pub fn new() -> (b: VgaBuffer)
        ensures
            b.wf(),
            b@ == blank_grid(),
    {
        let mut rows: Vec<Vec<ScreenChar>> = Vec::new();
        let mut y: usize = 0;
        while y < BUFFER_HEIGHT
            invariant
                y <= BUFFER_HEIGHT,
                rows@.len() == y,
                forall|i: int| 0 <= i < y ==> (#[trigger] rows@[i])@ == blank_row(),
            decreases BUFFER_HEIGHT - y,
        {
            let mut row: Vec<ScreenChar> = Vec::new();
            let mut x: usize = 0;
            while x < BUFFER_WIDTH
                invariant
                    x <= BUFFER_WIDTH,
                    row@.len() == x,
                    forall|j: int| 0 <= j < x ==> row@[j] == blank_char(),
                decreases BUFFER_WIDTH - x,
            {
                row.push(ScreenChar { ascii_value: 0, color_code: ColorCode::default() });
                x += 1;
            }
            proof {
                assert(row@ =~= blank_row());
            }
            rows.push(row);
            y += 1;
        }
        let b = VgaBuffer { rows };
        proof {
            assert(b@ =~~= blank_grid());
        }
        b
    }

    /// The cell at row `y`, column `x`.
    pub fn read_cell(&self, y: usize, x: usize) -> (c: ScreenChar)
        requires
            self.wf(),
            y < BUFFER_HEIGHT,
            x < BUFFER_WIDTH,
        ensures
            c == self@[y as int][x as int],
    {
        proof {
            assert(self@[y as int].len() == BUFFER_WIDTH);
        }
        self.rows[y][x]
    }

    /// Overwrite the cell at row `y`, column `x`.
    pub fn write_cell(&mut self, y: usize, x: usize, c: ScreenChar)
        requires
            old(self).wf(),
            y < BUFFER_HEIGHT,
            x < BUFFER_WIDTH,
        ensures
            final(self).wf(),
            final(self)@ == old(self)@.update(y as int, old(self)@[y as int].update(x as int, c)),
    {
        proof {
            assert(old(self)@[y as int].len() == BUFFER_WIDTH);
        }
        self.rows[y][x] = c;
        proof {
            assert(self@ =~~= old(self)@.update(y as int, old(self)@[y as int].update(x as int, c)));
        }
    }
}

} // verus!
