//! The writer: cursor and color state over the cell grid, with line
//! wrapping and scrolling.

use crate::buffer::{
    blank_char, blank_grid, blank_row, cell, ScreenChar, VgaBuffer, BUFFER_HEIGHT, BUFFER_WIDTH,
};
use crate::color::{default_color_code, pack_colors, Color, ColorCode};
use vstd::prelude::*;
use vstd::string::StringSliceAdditionalSpecFns;

verus! {

/// The line feed control byte.
pub const NEWLINE: u8 = 0x0a;

/// The carriage return control byte.
pub const CARRIAGE_RETURN: u8 = 0x0d;

/// The mathematical state of a writer: the grid of cells, the cursor
/// position, and the active color attribute.
pub ghost struct WriterModel {
    pub grid: Seq<Seq<ScreenChar>>,
    pub row: int,
    pub col: int,
    pub color: ColorCode,
}

/// A well-formed writer state: full-sized grid, cursor row on the screen,
/// cursor column at most one past the right edge (equal to `BUFFER_WIDTH`
/// only transiently, until the next write wraps the line).
pub open spec fn wf_model(m: WriterModel) -> bool {
    &&& m.grid.len() == BUFFER_HEIGHT
    &&& forall|y: int| 0 <= y < BUFFER_HEIGHT ==> (#[trigger] m.grid[y]).len() == BUFFER_WIDTH
    &&& 0 <= m.row < BUFFER_HEIGHT
    &&& 0 <= m.col <= BUFFER_WIDTH
}

/// The state a fresh writer starts in: blank grid, cursor at the top left,
/// default attribute.
pub open spec fn initial_model() -> WriterModel {
    WriterModel { grid: blank_grid(), row: 0, col: 0, color: default_color_code() }
}

/// Carriage return: the cursor moves to the start of its line.
pub open spec fn spec_carriage_return(m: WriterModel) -> WriterModel {
    WriterModel { col: 0, ..m }
}

/// The grid after one scroll step: every row holds what the row below it
/// held, and the last row is blank. The topmost row's content is discarded.
pub open spec fn spec_scroll(grid: Seq<Seq<ScreenChar>>) -> Seq<Seq<ScreenChar>> {
    Seq::new(
        BUFFER_HEIGHT as nat,
        |y: int| if y < BUFFER_HEIGHT - 1 { grid[y + 1] } else { blank_row() },
    )
}

/// Line feed: on the last row the screen scrolls and the cursor stays
/// pinned there; on any other row the cursor just moves down one row.
/// Either way it ends at column 0.
pub open spec fn spec_new_line(m: WriterModel) -> WriterModel {
    if m.row == BUFFER_HEIGHT - 1 {
        WriterModel { grid: spec_scroll(m.grid), row: m.row, col: 0, color: m.color }
    } else {
        WriterModel { grid: m.grid, row: m.row + 1, col: 0, color: m.color }
    }
}

/// The grid with row `y` cleared to blank cells under the default
/// attribute, whatever the pen color is.
pub open spec fn spec_clear_row(grid: Seq<Seq<ScreenChar>>, y: int) -> Seq<Seq<ScreenChar>> {
    grid.update(y, blank_row())
}

/// The grid with the cell at row `y`, column `x` replaced by `c`.
pub open spec fn spec_write_cell(
    grid: Seq<Seq<ScreenChar>>,
    y: int,
    x: int,
    c: ScreenChar,
) -> Seq<Seq<ScreenChar>> {
    grid.update(y, grid[y].update(x, c))
}

/// One byte written to the screen: a newline performs a line feed, a
/// carriage return resets the column, and any other byte lands at the
/// cursor under the active attribute — after an implicit line feed if the
/// cursor had already reached the right edge — and advances the column.
pub open spec fn spec_write_byte(m: WriterModel, byte: u8) -> WriterModel {
    if byte == NEWLINE {
        spec_new_line(m)
    } else if byte == CARRIAGE_RETURN {
        spec_carriage_return(m)
    } else {
        let base = if m.col >= BUFFER_WIDTH {
            spec_new_line(m)
        } else {
            m
        };
        WriterModel {
            grid: spec_write_cell(base.grid, base.row, base.col, cell(byte, m.color)),
            row: base.row,
            col: base.col + 1,
            color: m.color,
        }
    }
}

/// A byte the text sink renders as itself: printable, or the newline byte.
pub open spec fn spec_renderable(b: u8) -> bool {
    (0x20 <= b <= 0x7e) || b == NEWLINE
}

/// The substitution the text sink applies: an unrenderable byte becomes the
/// placeholder glyph `0x7e` rather than being dropped or rejected.
pub open spec fn spec_substitute(b: u8) -> u8 {
    if spec_renderable(b) {
        b
    } else {
        0x7e
    }
}

/// A whole byte stream written through the text sink, substitution
/// included, left to right.
pub open spec fn spec_write_bytes(m: WriterModel, bs: Seq<u8>) -> WriterModel
    decreases bs.len(),
{
    if bs.len() == 0 {
        m
    } else {
        spec_write_byte(spec_write_bytes(m, bs.drop_last()), spec_substitute(bs.last()))
    }
}

/// The same state with another pen color.
pub open spec fn spec_set_color(m: WriterModel, c: ColorCode) -> WriterModel {
    WriterModel { color: c, ..m }
}

/// The palette a banner cycles through, one color per character position.
pub open spec fn rainbow_color(i: int) -> Color {
    let r = i % 7;
    if r == 0 {
        Color::Blue
    } else if r == 1 {
        Color::Green
    } else if r == 2 {
        Color::Cyan
    } else if r == 3 {
        Color::Red
    } else if r == 4 {
        Color::Magenta
    } else if r == 5 {
        Color::Brown
    } else {
        Color::LightGray
    }
}

/// One step of the banner: the pen takes the cycling color for position
/// `i` over a black background, then the byte goes through the text sink.
pub open spec fn spec_rainbow_step(m: WriterModel, b: u8, i: int) -> WriterModel {
    spec_write_byte(
        spec_set_color(m, ColorCode(pack_colors(rainbow_color(i), Color::Black))),
        spec_substitute(b),
    )
}

/// A whole byte stream written as a banner, each byte under its cycling
/// color.
pub open spec fn spec_rainbow_write(m: WriterModel, bs: Seq<u8>) -> WriterModel
    decreases bs.len(),
{
    if bs.len() == 0 {
        m
    } else {
        spec_rainbow_step(spec_rainbow_write(m, bs.drop_last()), bs.last(), bs.len() - 1)
    }
}

/// Position of the cursor in a [`Writer`].
struct CursorPosition {
    y: usize,
    x: usize,
}

/// Renders a byte stream into a [`VgaBuffer`]: owns the grid, the cursor
/// position and the active color attribute.
pub struct Writer {
    /// Grid of cells being written to.
    buffer: VgaBuffer,
    /// The current cursor position.
    cursor_position: CursorPosition,
    /// The attribute with which characters get printed.
    color_code: ColorCode,
}

impl View for Writer {
    type V = WriterModel;

    closed spec fn view(&self) -> WriterModel {
        WriterModel {
            grid: self.buffer@,
            row: self.cursor_position.y as int,
            col: self.cursor_position.x as int,
            color: self.color_code,
        }
    }
}

impl Writer {
    /// The writer's state is well formed.
    pub open spec fn wf(&self) -> bool {
        wf_model(self@)
    }

    /// Performs a carriage return: the cursor goes back to the beginning of
    /// the line.
    pub fn carriage_return(&mut self)
        requires
            old(self).wf(),
        ensures
            final(self).wf(),
            final(self)@ == spec_carriage_return(old(self)@),
    {
        self.cursor_position.x = 0;
    }

    /// Clears the row at `y` to blank cells under the default attribute.
    pub fn clear_row(&mut self, y: usize)
        requires
            old(self).wf(),
            y < BUFFER_HEIGHT,
        ensures
            final(self).wf(),
            final(self)@ == (WriterModel {
                grid: spec_clear_row(old(self)@.grid, y as int),
                ..old(self)@
            }),
    {
        let blank = ScreenChar { ascii_value: 0, color_code: ColorCode::default() };
        let mut x: usize = 0;
        while x < BUFFER_WIDTH
            invariant
                old(self).wf(),
                self.wf(),
                y < BUFFER_HEIGHT,
                x <= BUFFER_WIDTH,
                self@.row == old(self)@.row,
                self@.col == old(self)@.col,
                self@.color == old(self)@.color,
                blank == blank_char(),
                forall|r: int|
                    0 <= r < BUFFER_HEIGHT && r != y ==> self@.grid[r] == old(self)@.grid[r],
                forall|j: int| 0 <= j < x ==> self@.grid[y as int][j] == blank_char(),
                forall|j: int|
                    x <= j < BUFFER_WIDTH ==> self@.grid[y as int][j] == old(self)@.grid[y as int][j],
            decreases BUFFER_WIDTH - x,
        {
            self.buffer.write_cell(y, x, blank);
            x += 1;
        }
        proof {
            assert(self@.grid[y as int] =~= blank_row());
            assert(self@.grid =~~= spec_clear_row(old(self)@.grid, y as int));
        }
    }

    /// Adds a newline. On the last row the screen scrolls: every row takes
    /// the contents of the row below it, the top row is discarded and the
    /// last row is cleared. On any other row the cursor just moves down.
    /// Either way the cursor ends at the beginning of its line.
    pub fn new_line(&mut self)
        requires
            old(self).wf(),
        ensures
            final(self).wf(),
            final(self)@ == spec_new_line(old(self)@),
    {
        if self.cursor_position.y == BUFFER_HEIGHT - 1 {
            // Screen is full: copy each row one row up, discarding the top row.
            let mut y: usize = 1;
            while y < BUFFER_HEIGHT
                invariant
                    old(self).wf(),
                    self.wf(),
                    1 <= y <= BUFFER_HEIGHT,
                    self@.row == old(self)@.row,
                    self@.col == old(self)@.col,
                    self@.color == old(self)@.color,
                    forall|r: int| 0 <= r < y - 1 ==> self@.grid[r] == old(self)@.grid[r + 1],
                    forall|r: int|
                        y - 1 <= r < BUFFER_HEIGHT ==> self@.grid[r] == old(self)@.grid[r],
                decreases BUFFER_HEIGHT - y,
            {
                let mut x: usize = 0;
                while x < BUFFER_WIDTH
                    invariant
                        old(self).wf(),
                        self.wf(),
                        1 <= y < BUFFER_HEIGHT,
                        x <= BUFFER_WIDTH,
                        self@.row == old(self)@.row,
                        self@.col == old(self)@.col,
                        self@.color == old(self)@.color,
                        forall|r: int| 0 <= r < y - 1 ==> self@.grid[r] == old(self)@.grid[r + 1],
                        forall|r: int|
                            y <= r < BUFFER_HEIGHT ==> self@.grid[r] == old(self)@.grid[r],
                        forall|j: int|
                            0 <= j < x ==> (#[trigger] self@.grid[y - 1][j]) == old(self)@.grid[y as int][j],
                        forall|j: int|
                            x <= j < BUFFER_WIDTH ==> (#[trigger] self@.grid[y - 1][j]) == old(self)@.grid[y - 1][j],
                    decreases BUFFER_WIDTH - x,
                {
                    let character = self.buffer.read_cell(y, x);
                    self.buffer.write_cell(y - 1, x, character);
                    x += 1;
                }
                proof {
                    assert(self@.grid[y - 1] =~= old(self)@.grid[y as int]);
                }
                y += 1;
            }
            self.clear_row(BUFFER_HEIGHT - 1);
            proof {
                assert(self@.grid =~~= spec_scroll(old(self)@.grid));
            }
        } else {
            self.cursor_position.y += 1;
        }
        self.carriage_return();
    }

    /// Writes `byte` to the buffer with the current color. A newline
    /// performs a line feed and a carriage return resets the column; any
    /// other byte lands at the cursor cell — after an implicit line feed if
    /// the current line is full — and the column advances by one.
    pub fn write_byte(&mut self, byte: u8)
        requires
            old(self).wf(),
        ensures
            final(self).wf(),
            final(self)@ == spec_write_byte(old(self)@, byte),
    {
        if byte == NEWLINE {
            self.new_line();
        } else if byte == CARRIAGE_RETURN {
            self.carriage_return();
        } else {
            if self.cursor_position.x >= BUFFER_WIDTH {
                self.new_line();
            }
            let screen_char = ScreenChar { ascii_value: byte, color_code: self.color_code };
            let y = self.cursor_position.y;
            let x = self.cursor_position.x;
            self.buffer.write_cell(y, x, screen_char);
            self.cursor_position.x += 1;
        }
    }

    /// Writes a whole string, byte by byte: printable bytes and newlines
    /// are rendered as themselves, every other byte as the placeholder
    /// glyph. Nothing is dropped and the write cannot fail.
    pub fn write_str(&mut self, s: &str)
        requires
            old(self).wf(),
        ensures
            final(self).wf(),
            final(self)@ == spec_write_bytes(old(self)@, s.spec_bytes()),
    {
        let bytes = s.as_bytes();
        let n: usize = bytes.len();
        let mut i: usize = 0;
        while i < n
            invariant
                old(self).wf(),
                self.wf(),
                i <= n,
                bytes@ == s.spec_bytes(),
                n == bytes@.len(),
                self@ == spec_write_bytes(old(self)@, bytes@.take(i as int)),
            decreases n - i,
        {
            let byte = bytes[i];
            if (0x20 <= byte && byte <= 0x7e) || byte == NEWLINE {
                self.write_byte(byte);
            } else {
                self.write_byte(0x7e);
            }
            proof {
                assert(bytes@.take(i as int + 1).drop_last() =~= bytes@.take(i as int));
            }
            i += 1;
        }
        proof {
            assert(bytes@.take(n as int) =~= bytes@);
        }
    }

    /// Sets the color of the writer to `color_code`. All following
    /// characters get printed with this attribute, until a new one is set.
    pub fn set_color_code(&mut self, color_code: ColorCode)
        requires
            old(self).wf(),
        ensures
            final(self).wf(),
            final(self)@ == spec_set_color(old(self)@, color_code),
    {
        self.color_code = color_code;
    }

    /// Returns the current color code with which characters get printed.
    pub fn get_color_code(&self) -> (r: ColorCode)
        ensures
            r == self@.color,
    {
        self.color_code
    }

    /// The cursor's row.
    pub fn cursor_row(&self) -> (r: usize)
        ensures
            r == self@.row,
    {
        self.cursor_position.y
    }

    /// The cursor's column.
    pub fn cursor_column(&self) -> (r: usize)
        ensures
            r == self@.col,
    {
        self.cursor_position.x
    }

    /// The cell at row `y`, column `x` of the grid.
    pub fn read_cell(&self, y: usize, x: usize) -> (c: ScreenChar)
        requires
            self.wf(),
            y < BUFFER_HEIGHT,
            x < BUFFER_WIDTH,
        ensures
            c == self@.grid[y as int][x as int],
    {
        self.buffer.read_cell(y, x)
    }
}

/// Renders an already-formatted text stream into `w`. Formatting of
/// arbitrary values into text happens outside the library; the writer
/// consumes the resulting stream, and the write cannot fail.
pub fn _print(w: &mut Writer, s: &str)
    requires
        old(w).wf(),
    ensures
        final(w).wf(),
        final(w)@ == spec_write_bytes(old(w)@, s.spec_bytes()),
{
    w.write_str(s);
}

/// Sets the color of `w` to `color_code`. All following characters get
/// printed with this color code, until you set a new color code.
pub fn set_color_code(w: &mut Writer, color_code: ColorCode)
    requires
        old(w).wf(),
    ensures
        final(w).wf(),
        final(w)@ == spec_set_color(old(w)@, color_code),
{
    w.set_color_code(color_code);
}

/// Returns the current color code with which characters get printed.
pub fn get_color_code(w: &Writer) -> (r: ColorCode)
    ensures
        r == w@.color,
{
    w.get_color_code()
}

/// Writes `s` as a banner: each character is printed under the cycling
/// palette color for its position, over a black background. The pen color
/// is left at the last color set.
pub fn rainbow_print(w: &mut Writer, s: &str)
    requires
        old(w).wf(),
    ensures
        final(w).wf(),
        final(w)@ == spec_rainbow_write(old(w)@, s.spec_bytes()),
{
    let bytes = s.as_bytes();
    let n: usize = bytes.len();
    let mut i: usize = 0;
    while i < n
        invariant
            old(w).wf(),
            w.wf(),
            i <= n,
            bytes@ == s.spec_bytes(),
            n == bytes@.len(),
            w@ == spec_rainbow_write(old(w)@, bytes@.take(i as int)),
        decreases n - i,
    {
        let r: usize = i % 7;
        let color = if r == 0 {
            Color::Blue
        } else if r == 1 {
            Color::Green
        } else if r == 2 {
            Color::Cyan
        } else if r == 3 {
            Color::Red
        } else if r == 4 {
            Color::Magenta
        } else if r == 5 {
            Color::Brown
        } else {
            Color::LightGray
        };
        proof {
            assert(color == rainbow_color(i as int));
        }
        w.set_color_code(ColorCode::new(color, Color::Black));
        let byte = bytes[i];
        if (0x20 <= byte && byte <= 0x7e) || byte == NEWLINE {
            w.write_byte(byte);
        } else {
            w.write_byte(0x7e);
        }
        proof {
            assert(bytes@.take(i as int + 1).drop_last() =~= bytes@.take(i as int));
        }
        i += 1;
    }
    proof {
        assert(bytes@.take(n as int) =~= bytes@);
    }
}

impl Default for Writer {
    /// A writer over a blank grid, cursor at the top left, default color.
    fn default() -> (w: Writer)
        ensures
            w.wf(),
            w@ == initial_model(),
    {
        Writer {
            buffer: VgaBuffer::new(),
            cursor_position: CursorPosition { y: 0, x: 0 },
            color_code: ColorCode::default(),
        }
    }
}

} // verus!
