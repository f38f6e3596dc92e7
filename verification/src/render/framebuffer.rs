//! Off-screen cell grid with an inverse-depth buffer, a half-block pixel layer
//! for bodies, a braille sub-pixel layer for trails, and dirty-cell diffing.

use vstd::prelude::*;

use crate::render::cell::{spec_empty_cell, Cell, Color, FRONT_DEPTH};
use crate::text::{char_at, chars_of};

verus! {

/// Abstract state of a frame buffer: row-major grids of `width × height`
/// cells and a `width × 2·height` pixel layer.
#[verifier::ext_equal]
pub struct FrameView {
    pub width: nat,
    pub height: nat,
    pub cells: Seq<Cell>,
    pub previous: Seq<Cell>,
    pub px_color: Seq<Color>,
    pub px_depth: Seq<u32>,
    pub braille_mask: Seq<u8>,
    pub braille_depth: Seq<u32>,
    pub braille_color: Seq<Color>,
}

impl FrameView {
    /// Number of cells.
    pub open spec fn n(self) -> nat {
        self.width * self.height
    }

    pub open spec fn wf(self) -> bool {
        &&& self.width <= u16::MAX
        &&& self.height <= u16::MAX
        &&& 2 * self.n() <= usize::MAX
        &&& self.cells.len() == self.n()
        &&& self.previous.len() == self.n()
        &&& self.px_color.len() == 2 * self.n()
        &&& self.px_depth.len() == 2 * self.n()
        &&& self.braille_mask.len() == self.n()
        &&& self.braille_depth.len() == self.n()
        &&& self.braille_color.len() == self.n()
    }

    /// The cell at column `x`, row `y`.
    pub open spec fn cell_at(self, x: int, y: int) -> Cell {
        grid_at(self.cells, self.width, x, y)
    }

    /// Depth key of the pixel at column `x`, pixel row `py`.
    pub open spec fn px_depth_at(self, x: int, py: int) -> u32 {
        self.px_depth[py * self.width + x]
    }

    /// Colour of the pixel at column `x`, pixel row `py`.
    pub open spec fn px_color_at(self, x: int, py: int) -> Color {
        self.px_color[py * self.width + x]
    }

    /// Where a pixel write at (`px`, `py`) lands, if it passes the bounds
    /// test. The test compares the coordinates truncated to 16 bits.
    pub open spec fn pixel_target(self, px: i32, py: i32) -> Option<int> {
        if px < 0 || py < 0 || (px as u16) >= self.width || (py as u16) >= 2 * self.height {
            None
        } else {
            Some(py * self.width + px)
        }
    }

    /// The cell at (`x`, `y`) after compositing the two pixels stacked in it.
    pub open spec fn composited(self, x: int, y: int) -> Cell {
        composite_pixel(
            self.cell_at(x, y),
            self.px_depth_at(x, 2 * y),
            self.px_color_at(x, 2 * y),
            self.px_depth_at(x, 2 * y + 1),
            self.px_color_at(x, 2 * y + 1),
        )
    }

    /// The state after a depth-tested pixel write.
    pub open spec fn after_write_pixel(self, px: i32, py: i32, color: Color, depth: u32) -> FrameView {
        match self.pixel_target(px, py) {
            Some(i) => if depth >= self.px_depth[i] {
                FrameView {
                    px_depth: self.px_depth.update(i, depth),
                    px_color: self.px_color.update(i, color),
                    ..self
                }
            } else {
                self
            },
            None => self,
        }
    }

    /// Where a braille plot at sub-pixel (`sx`, `sy`) lands, if anywhere: the
    /// cell index and the dot bit. Coordinates are truncated to 16 bits.
    pub open spec fn braille_target(self, sx: i32, sy: i32) -> Option<(int, u8)> {
        if sx < 0 || sy < 0 {
            None
        } else {
            let cx = (sx as u16) / 2;
            let cy = (sy as u16) / 4;
            if cx >= self.width || cy >= self.height {
                None
            } else {
                Some((cy * self.width + cx, spec_braille_bit((sx as u16 % 2) as u8, (sy as u16 % 4) as u8)))
            }
        }
    }

    /// The state after plotting a braille dot: the dot accumulates into the
    /// cell's mask, and the cell keeps the nearest depth and its colour.
    pub open spec fn after_plot_braille(self, sx: i32, sy: i32, depth: u32, color: Color) -> FrameView {
        match self.braille_target(sx, sy) {
            Some((i, bit)) => {
                let masked = FrameView {
                    braille_mask: self.braille_mask.update(i, self.braille_mask[i] | bit),
                    ..self
                };
                if depth > self.braille_depth[i] {
                    FrameView {
                        braille_depth: self.braille_depth.update(i, depth),
                        braille_color: self.braille_color.update(i, color),
                        ..masked
                    }
                } else {
                    masked
                }
            },
            None => self,
        }
    }

    /// Number of characters of a string written at (`x`, `y`): none off-grid,
    /// else as many as fit before the right edge.
    pub open spec fn str_span(self, x: int, y: int, len: int) -> int {
        if y >= self.height || x >= self.width {
            0
        } else if len <= self.width - x {
            len
        } else {
            self.width - x
        }
    }

    /// Cell `i` after writing `chars` at (`x`, `y`) in front of everything.
    pub open spec fn str_cell(self, x: int, y: int, chars: Seq<char>, fg: Color, bg: Color, i: int) -> Cell {
        if y * self.width + x <= i < y * self.width + x + self.str_span(x, y, chars.len() as int) {
            Cell { ch: chars[i - (y * self.width + x)], fg, bg, depth: FRONT_DEPTH }
        } else {
            self.cells[i]
        }
    }

    /// The cells after writing `chars` at (`x`, `y`) in front of everything.
    pub open spec fn cells_after_str(self, x: int, y: int, chars: Seq<char>, fg: Color, bg: Color) -> Seq<Cell> {
        Seq::new(self.cells.len(), |i: int| self.str_cell(x, y, chars, fg, bg, i))
    }

    /// Rows `0..rows` of the character grid, each followed by a newline.
    pub open spec fn text_rows(self, rows: nat) -> Seq<char>
        decreases rows,
    {
        if rows == 0 {
            Seq::empty()
        } else {
            self.text_rows((rows - 1) as nat) + row_chars(self.cells, self.width, rows - 1).push('\n')
        }
    }

    /// The whole character grid as text.
    pub open spec fn text(self) -> Seq<char> {
        self.text_rows(self.height)
    }

    /// Cells that differ from the previous frame, among the first `k`, as
    /// (column, row, cell), in row-major order.
    pub open spec fn dirty_prefix(self, k: nat) -> Seq<(u16, u16, Cell)>
        decreases k,
    {
        if k == 0 {
            Seq::empty()
        } else {
            let i = k - 1;
            let rest = self.dirty_prefix((k - 1) as nat);
            if self.cells[i] != self.previous[i] {
                rest.push(((i % (self.width as int)) as u16, (i / (self.width as int)) as u16, self.cells[i]))
            } else {
                rest
            }
        }
    }

    /// Every cell that differs from the previous frame.
    pub open spec fn dirty(self) -> Seq<(u16, u16, Cell)> {
        self.dirty_prefix(self.n())
    }
}

/// The characters of row `y` of a grid of the given width.
pub open spec fn row_chars(cells: Seq<Cell>, width: nat, y: int) -> Seq<char> {
    Seq::new(width, |x: int| cells[y * width + x].ch)
}

/// Text of a blank grid: `height` rows of `width` spaces.
pub open spec fn blank_text(width: nat, height: nat) -> Seq<char>
    decreases height,
{
    if height == 0 {
        Seq::empty()
    } else {
        blank_text(width, (height - 1) as nat) + Seq::new(width, |x: int| ' ').push('\n')
    }
}

/// The cell a pair of stacked pixels (top over bottom) composites into,
/// given the cell already there. Nothing is drawn where both depths are 0;
/// otherwise the half-block glyph wins when it is at least as close.
pub open spec fn composite_pixel(old: Cell, td: u32, tc: Color, bd: u32, bc: Color) -> Cell {
    if td == 0 && bd == 0 {
        old
    } else {
        let new_cell = if td > 0 && bd > 0 {
            Cell { ch: '▀', fg: tc, bg: bc, depth: if td >= bd { td } else { bd } }
        } else if td > 0 {
            Cell { ch: '▀', fg: tc, bg: Color::Reset, depth: td }
        } else {
            Cell { ch: '▄', fg: bc, bg: Color::Reset, depth: bd }
        };
        if new_cell.depth >= old.depth {
            new_cell
        } else {
            old
        }
    }
}

/// The braille glyph whose dot pattern is `mask`.
pub open spec fn braille_char(mask: u8) -> char {
    (0x2800 + mask) as char
}

/// The cell the braille layer composites into, given the cell already there.
pub open spec fn composite_braille_cell(old: Cell, mask: u8, depth: u32, color: Color) -> Cell {
    if mask != 0 && depth >= old.depth {
        Cell { ch: braille_char(mask), fg: color, bg: Color::Reset, depth }
    } else {
        old
    }
}

/// Compositing never puts a farther cell over a nearer one: the pixel and
/// braille layers leave a cell as it was or replace it by one at least as
/// close.
pub proof fn lemma_composite_keeps_nearest(old: Cell, td: u32, tc: Color, bd: u32, bc: Color, mask: u8, depth: u32, color: Color)
    ensures
        composite_pixel(old, td, tc, bd, bc).depth >= old.depth,
        composite_braille_cell(old, mask, depth, color).depth >= old.depth,
{
}

/// The Unicode braille dot number of sub-pixel (`dx`, `dy`) of a 2 × 4
/// cell: dots 1–3 run down the left column and 4–6 down the right, with
/// dots 7 and 8 at the bottom of the left and right columns.
pub open spec fn braille_dot_number(dx: int, dy: int) -> int {
    if dy < 3 {
        dx * 3 + dy + 1
    } else {
        7 + dx
    }
}

/// The dot bit of a sub-pixel is the Unicode braille bit of the dot at that
/// place, bit n − 1 for dot n, so one plotted dot shows as the braille
/// character U+2800 plus that bit.
pub proof fn lemma_braille_bit_is_unicode_dot(dx: u8, dy: u8)
    requires
        dx < 2,
        dy < 4,
    ensures
        spec_braille_bit(dx, dy) as int == vstd::arithmetic::power2::pow2(
            (braille_dot_number(dx as int, dy as int) - 1) as nat,
        ),
        braille_char(spec_braille_bit(dx, dy)) as int == 0x2800 + vstd::arithmetic::power2::pow2(
            (braille_dot_number(dx as int, dy as int) - 1) as nat,
        ),
{
    vstd::arithmetic::power2::lemma2_to64();
}

/// Bit of the braille dot at column `dx`, row `dy` of a 2 × 4 cell:
///
/// ```text
///   (0,0)=0x01 (1,0)=0x08
///   (0,1)=0x02 (1,1)=0x10
///   (0,2)=0x04 (1,2)=0x20
///   (0,3)=0x40 (1,3)=0x80
/// ```
pub open spec fn spec_braille_bit(dx: u8, dy: u8) -> u8 {
    if dx == 0 && dy == 0 {
        0x01
    } else if dx == 0 && dy == 1 {
        0x02
    } else if dx == 0 && dy == 2 {
        0x04
    } else if dx == 0 && dy == 3 {
        0x40
    } else if dx == 1 && dy == 0 {
        0x08
    } else if dx == 1 && dy == 1 {
        0x10
    } else if dx == 1 && dy == 2 {
        0x20
    } else if dx == 1 && dy == 3 {
        0x80
    } else {
        0
    }
}

/// The braille dot bit for (`dx`, `dy`); 0 outside the 2 × 4 cell.
pub fn braille_bit(dx: u8, dy: u8) -> (b: u8)
    ensures
        b == spec_braille_bit(dx, dy),
{
    match (dx, dy) {
        (0, 0) => 0x01,
        (0, 1) => 0x02,
        (0, 2) => 0x04,
        (0, 3) => 0x40,
        (1, 0) => 0x08,
        (1, 1) => 0x10,
        (1, 2) => 0x20,
        (1, 3) => 0x80,
        _ => 0,
    }
}

/// `char::from_u32`: the character with scalar value `x`, if `x` is one.
#[verifier::external_body]
fn char_from_u32(x: u32) -> (r: Option<char>)
    ensures
        r matches Some(c) ==> c == x as char,
        (x <= 0xD7FF || (0xE000 <= x && x <= 0x10FFFF)) ==> r is Some,
{
    char::from_u32(x)
}

proof fn lemma_index_bound(w: int, h: int, x: int, y: int)
    requires
        0 <= x < w,
        0 <= y < h,
    ensures
        0 <= y * w + x < w * h,
{
    assert(y * w + x < w * h) by (nonlinear_arith)
        requires
            0 <= x < w,
            0 <= y < h,
    ;
    assert(0 <= y * w) by (nonlinear_arith)
        requires
            0 <= y,
            0 <= w,
    ;
}

proof fn lemma_index_unique(w: int, x1: int, y1: int, x2: int, y2: int)
    requires
        0 <= x1 < w,
        0 <= x2 < w,
        0 <= y1,
        0 <= y2,
        y1 * w + x1 == y2 * w + x2,
    ensures
        x1 == x2,
        y1 == y2,
{
    if y1 < y2 {
        assert(y1 * w + w <= y2 * w) by (nonlinear_arith)
            requires
                y1 < y2,
                0 <= w,
        ;
    } else if y2 < y1 {
        assert(y2 * w + w <= y1 * w) by (nonlinear_arith)
            requires
                y2 < y1,
                0 <= w,
        ;
    }
}

/// The cell at column `x`, row `y` of a row-major grid of the given width.
pub open spec fn grid_at(cells: Seq<Cell>, width: nat, x: int, y: int) -> Cell {
    cells[y * width + x]
}

proof fn lemma_grid_update(cells: Seq<Cell>, w: nat, h: nat, cx: int, cy: int, v: Cell)
    requires
        cells.len() == w * h,
        0 <= cx < w,
        0 <= cy < h,
    ensures
        forall|x: int, y: int|
            0 <= x < w && 0 <= y < h ==> #[trigger] grid_at(cells.update(cy * w + cx, v), w, x, y)
                == if x == cx && y == cy {
                v
            } else {
                grid_at(cells, w, x, y)
            },
{
    lemma_index_bound(w as int, h as int, cx, cy);
    assert forall|x: int, y: int| 0 <= x < w && 0 <= y < h implies #[trigger] grid_at(
        cells.update(cy * w + cx, v),
        w,
        x,
        y,
    ) == if x == cx && y == cy {
        v
    } else {
        grid_at(cells, w, x, y)
    } by {
        lemma_index_bound(w as int, h as int, x, y);
        if y * w + x == cy * w + cx {
            lemma_index_unique(w as int, x, y, cx, cy);
        }
    }
}

proof fn lemma_double_rows(w: int, h: int)
    requires
        0 <= w,
        0 <= h,
    ensures
        w * (2 * h) == 2 * (w * h),
{
    assert(w * (2 * h) == 2 * (w * h)) by (nonlinear_arith);
}

/// The half-block compositing rule, computed.
fn composite_pixel_cell(old: Cell, td: u32, tc: Color, bd: u32, bc: Color) -> (c: Cell)
    ensures
        c == composite_pixel(old, td, tc, bd, bc),
{
    if td == 0 && bd == 0 {
        return old;
    }
    let new_cell = if td > 0 && bd > 0 {
        Cell { ch: '▀', fg: tc, bg: bc, depth: if td >= bd { td } else { bd } }
    } else if td > 0 {
        Cell { ch: '▀', fg: tc, bg: Color::Reset, depth: td }
    } else {
        Cell { ch: '▄', fg: bc, bg: Color::Reset, depth: bd }
    };
    if new_cell.depth >= old.depth {
        new_cell
    } else {
        old
    }
}

/// The braille compositing rule, computed.
fn composite_braille_cell_exec(old: Cell, mask: u8, depth: u32, color: Color) -> (c: Cell)
    ensures
        c == composite_braille_cell(old, mask, depth, color),
{
    if mask != 0 && depth >= old.depth {
        let ch = match char_from_u32(0x2800 + mask as u32) {
            Some(c) => c,
            None => '.',
        };
        Cell { ch, fg: color, bg: Color::Reset, depth }
    } else {
        old
    }
}

/// An off-screen terminal frame.
pub struct FrameBuffer {
    width: u16,
    height: u16,
    current: Vec<Cell>,
    previous: Vec<Cell>,
    px_color: Vec<Color>,
    px_depth: Vec<u32>,
    braille_mask: Vec<u8>,
    braille_depth: Vec<u32>,
    braille_color: Vec<Color>,
}

impl View for FrameBuffer {
    type V = FrameView;

    closed spec fn view(&self) -> FrameView {
        FrameView {
            width: self.width as nat,
            height: self.height as nat,
            cells: self.current@,
            previous: self.previous@,
            px_color: self.px_color@,
            px_depth: self.px_depth@,
            braille_mask: self.braille_mask@,
            braille_depth: self.braille_depth@,
            braille_color: self.braille_color@,
        }
    }
}

/// The marker the "previous frame" starts filled with, so every cell of the
/// first frame counts as changed.
pub open spec fn unseen_cell() -> Cell {
    Cell { ch: '\x01', fg: Color::Reset, bg: Color::Reset, depth: 0 }
}

impl FrameBuffer {
    /// A blank buffer of `width × height` cells; every cell of it counts as
    /// changed until the first `swap`.
    pub fn new(width: u16, height: u16) -> (fb: Self)
        requires
            2 * (width as nat) * (height as nat) <= usize::MAX,
        ensures
            fb@.wf(),
            fb@.width == width,
            fb@.height == height,
            forall|i: int| 0 <= i < fb@.n() ==> #[trigger] fb@.cells[i] == spec_empty_cell(),
            forall|i: int| 0 <= i < fb@.n() ==> #[trigger] fb@.previous[i] == unseen_cell(),
            forall|i: int| 0 <= i < fb@.n() ==> #[trigger] fb@.braille_mask[i] == 0,
            forall|i: int| 0 <= i < fb@.n() ==> #[trigger] fb@.braille_depth[i] == 0,
            forall|i: int| 0 <= i < fb@.n() ==> #[trigger] fb@.braille_color[i] == Color::Reset,
            forall|i: int| 0 <= i < 2 * fb@.n() ==> #[trigger] fb@.px_depth[i] == 0,
            forall|i: int| 0 <= i < 2 * fb@.n() ==> #[trigger] fb@.px_color[i] == Color::Reset,
    {
        assert(2 * (width as nat) * (height as nat) == 2 * ((width as nat) * (height as nat)))
            by (nonlinear_arith);
        let n = width as usize * height as usize;
        let pn = n * 2;
        let unseen = Cell { ch: '\x01', fg: Color::Reset, bg: Color::Reset, depth: 0 };
        FrameBuffer {
            width,
            height,
            current: vec![Cell::empty(); n],
            previous: vec![unseen; n],
            px_color: vec![Color::Reset; pn],
            px_depth: vec![0u32; pn],
            braille_mask: vec![0u8; n],
            braille_depth: vec![0u32; n],
            braille_color: vec![Color::Reset; n],
        }
    }

    /// Replaces the buffer by a blank one of the new size.
    pub fn resize(&mut self, width: u16, height: u16)
        requires
            2 * (width as nat) * (height as nat) <= usize::MAX,
        ensures
            final(self)@.wf(),
            final(self)@.width == width,
            final(self)@.height == height,
            forall|i: int| 0 <= i < final(self)@.n() ==> #[trigger] final(self)@.cells[i] == spec_empty_cell(),
            forall|i: int| 0 <= i < final(self)@.n() ==> #[trigger] final(self)@.previous[i] == unseen_cell(),
            forall|i: int| 0 <= i < final(self)@.n() ==> #[trigger] final(self)@.braille_mask[i] == 0,
            forall|i: int| 0 <= i < final(self)@.n() ==> #[trigger] final(self)@.braille_depth[i] == 0,
            forall|i: int| 0 <= i < final(self)@.n() ==> #[trigger] final(self)@.braille_color[i] == Color::Reset,
            forall|i: int| 0 <= i < 2 * final(self)@.n() ==> #[trigger] final(self)@.px_depth[i] == 0,
            forall|i: int| 0 <= i < 2 * final(self)@.n() ==> #[trigger] final(self)@.px_color[i] == Color::Reset,
    {
        *self = Self::new(width, height);
    }

    /// (width, height) in cells.
    pub fn size(&self) -> (r: (u16, u16))
        ensures
            r.0 == self@.width,
            r.1 == self@.height,
    {
        (self.width, self.height)
    }

    /// Pixel-layer height: twice the cell height.
    pub fn pixel_height(&self) -> (ph: u16)
        requires
            2 * self@.height <= u16::MAX,
        ensures
            ph == 2 * self@.height,
    {
        self.height * 2
    }

    /// Whether (`x`, `y`) names a cell, comparing the coordinates truncated
    /// to 16 bits.
    pub fn in_bounds(&self, x: i32, y: i32) -> (b: bool)
        ensures
            b == (x >= 0 && y >= 0 && (x as u16) < self@.width && (y as u16) < self@.height),
    {
        x >= 0 && y >= 0 && (x as u16) < self.width && (y as u16) < self.height
    }

    /// Depth-tested write into the half-block pixel layer at column `px`,
    /// pixel row `py`; the write wins when it is at least as close.
    pub fn write_pixel(&mut self, px: i32, py: i32, color: Color, depth: u32)
        requires
            old(self)@.wf(),
            2 * old(self)@.height <= u16::MAX,
            old(self)@.pixel_target(px, py) matches Some(i) ==> i < 2 * old(self)@.n(),
        ensures
            final(self)@ == old(self)@.after_write_pixel(px, py, color, depth),
            final(self)@.wf(),
    {
        if px < 0 || py < 0 || (px as u16) >= self.width || (py as u16) >= self.pixel_height() {
            return;
        }
        assert(old(self)@.pixel_target(px, py) == Some(py * old(self)@.width + px));
        assert(0 <= (py as int) * (self.width as int)) by (nonlinear_arith)
            requires
                0 <= py,
        ;
        let idx = py as usize * self.width as usize + px as usize;
        if depth >= self.px_depth[idx] {
            self.px_depth.set(idx, depth);
            self.px_color.set(idx, color);
        }
    }

    /// Depth-tested cell write; returns whether it won (in bounds and at
    /// least as close as the cell there).
    pub fn write_depth(&mut self, x: u16, y: u16, cell: Cell) -> (won: bool)
        requires
            old(self)@.wf(),
        ensures
            final(self)@.wf(),
            won == (x < old(self)@.width && y < old(self)@.height && cell.depth >= old(self)@.cell_at(
                x as int,
                y as int,
            ).depth),
            won ==> final(self)@ == (FrameView {
                cells: old(self)@.cells.update(y * old(self)@.width + x, cell),
                ..old(self)@
            }),
            !won ==> final(self)@ == old(self)@,
    {
        if x >= self.width || y >= self.height {
            return false;
        }
        proof {
            lemma_index_bound(self.width as int, self.height as int, x as int, y as int);
        }
        let idx = y as usize * self.width as usize + x as usize;
        if cell.depth >= self.current[idx].depth {
            self.current.set(idx, cell);
            true
        } else {
            false
        }
    }

    /// Cell write that ignores depth (panels, labels); off-grid writes are
    /// dropped.
    pub fn write_overlay(&mut self, x: u16, y: u16, cell: Cell)
        requires
            old(self)@.wf(),
        ensures
            final(self)@.wf(),
            x < old(self)@.width && y < old(self)@.height ==> final(self)@ == (FrameView {
                cells: old(self)@.cells.update(y * old(self)@.width + x, cell),
                ..old(self)@
            }),
            !(x < old(self)@.width && y < old(self)@.height) ==> final(self)@ == old(self)@,
    {
        if x < self.width && y < self.height {
            proof {
                lemma_index_bound(self.width as int, self.height as int, x as int, y as int);
            }
            let idx = y as usize * self.width as usize + x as usize;
            self.current.set(idx, cell);
        }
    }

    /// Writes `s` left to right from (`x`, `y`) in front of everything,
    /// stopping at the right edge.
    pub fn write_str(&mut self, x: u16, y: u16, s: &str, fg: Color, bg: Color)
        requires
            old(self)@.wf(),
        ensures
            final(self)@ == (FrameView {
                cells: old(self)@.cells_after_str(x as int, y as int, s@, fg, bg),
                ..old(self)@
            }),
            final(self)@.wf(),
    {
        let chars = chars_of(s);
        let ghost v0 = self@;
        let k: usize = if y >= self.height || x >= self.width {
            0
        } else if chars.len() <= (self.width - x) as usize {
            chars.len()
        } else {
            (self.width - x) as usize
        };
        let ghost start = y * v0.width + x;
        let mut i: usize = 0;
        while i < k
            invariant
                i <= k,
                k == v0.str_span(x as int, y as int, s@.len() as int),
                chars@ == s@,
                v0.wf(),
                self.width == v0.width,
                self.height == v0.height,
                self.previous@ == v0.previous,
                self.px_color@ == v0.px_color,
                self.px_depth@ == v0.px_depth,
                self.braille_mask@ == v0.braille_mask,
                self.braille_depth@ == v0.braille_depth,
                self.braille_color@ == v0.braille_color,
                self.current@.len() == v0.cells.len(),
                start == y * v0.width + x,
                forall|j: int|
                    0 <= j < v0.cells.len() ==> #[trigger] self.current@[j] == if start <= j < start + i {
                        Cell { ch: s@[j - start], fg, bg, depth: FRONT_DEPTH }
                    } else {
                        v0.cells[j]
                    },
            decreases k - i,
        {
            let ch = char_at(&chars, i);
            proof {
                lemma_index_bound(v0.width as int, v0.height as int, x + i, y as int);
            }
            let idx = y as usize * self.width as usize + (x as usize + i);
            self.current.set(idx, Cell { ch, fg, bg, depth: FRONT_DEPTH });
            i += 1;
        }
        assert forall|j: int| 0 <= j < v0.cells.len() implies #[trigger] self@.cells[j]
            == v0.str_cell(x as int, y as int, s@, fg, bg, j) by {}
        assert(self@.cells =~= v0.cells_after_str(x as int, y as int, s@, fg, bg));
    }

    /// Plots a braille dot at sub-pixel (`sx`, `sy`), a grid of 2·width ×
    /// 4·height dots. Dots accumulate per cell, which keeps the nearest depth
    /// and its colour.
    pub fn plot_braille(&mut self, sx: i32, sy: i32, depth: u32, color: Color)
        requires
            old(self)@.wf(),
        ensures
            final(self)@ == old(self)@.after_plot_braille(sx, sy, depth, color),
            final(self)@.wf(),
    {
        if sx < 0 || sy < 0 {
            return;
        }
        let cx = (sx as u16) / 2;
        let cy = (sy as u16) / 4;
        if cx >= self.width || cy >= self.height {
            return;
        }
        proof {
            lemma_index_bound(self.width as int, self.height as int, cx as int, cy as int);
        }
        let idx = cy as usize * self.width as usize + cx as usize;
        let dx = ((sx as u16) % 2) as u8;
        let dy = ((sy as u16) % 4) as u8;
        let bit = braille_bit(dx, dy);
        let m = self.braille_mask[idx];
        self.braille_mask.set(idx, m | bit);
        if depth > self.braille_depth[idx] {
            self.braille_depth.set(idx, depth);
            self.braille_color.set(idx, color);
        }
    }

    /// Composites the pixel layer into cells as half-blocks (top pixel in
    /// the foreground, bottom in the background), depth-tested against the
    /// cells already there.
    pub fn composite_pixels(&mut self)
        requires
            old(self)@.wf(),
        ensures
            final(self)@.wf(),
            final(self)@ == (FrameView { cells: final(self)@.cells, ..old(self)@ }),
            forall|x: int, y: int|
                0 <= x < old(self)@.width && 0 <= y < old(self)@.height
                    ==> #[trigger] final(self)@.cell_at(x, y) == old(self)@.composited(x, y),
    {
        let w = self.width as usize;
        let h = self.height as usize;
        let ghost v0 = self@;
        proof {
            lemma_double_rows(w as int, h as int);
        }
        let mut cy: usize = 0;
        while cy < h
            invariant
                cy <= h,
                w == v0.width,
                h == v0.height,
                v0.wf(),
                w * (2 * h) == 2 * (w * h),
                self.width == v0.width,
                self.height == v0.height,
                self.previous@ == v0.previous,
                self.px_color@ == v0.px_color,
                self.px_depth@ == v0.px_depth,
                self.braille_mask@ == v0.braille_mask,
                self.braille_depth@ == v0.braille_depth,
                self.braille_color@ == v0.braille_color,
                self.current@.len() == v0.cells.len(),
                forall|x: int, y: int|
                    0 <= x < w && 0 <= y < h ==> #[trigger] grid_at(self.current@, w as nat, x, y)
                        == if y < cy {
                        v0.composited(x, y)
                    } else {
                        v0.cell_at(x, y)
                    },
            decreases h - cy,
        {
            let mut cx: usize = 0;
            while cx < w
                invariant
                    cy < h,
                    cx <= w,
                    w == v0.width,
                    h == v0.height,
                    v0.wf(),
                    w * (2 * h) == 2 * (w * h),
                    self.width == v0.width,
                    self.height == v0.height,
                    self.previous@ == v0.previous,
                    self.px_color@ == v0.px_color,
                    self.px_depth@ == v0.px_depth,
                    self.braille_mask@ == v0.braille_mask,
                    self.braille_depth@ == v0.braille_depth,
                    self.braille_color@ == v0.braille_color,
                    self.current@.len() == v0.cells.len(),
                    forall|x: int, y: int|
                        0 <= x < w && 0 <= y < h ==> #[trigger] grid_at(self.current@, w as nat, x, y)
                            == if y < cy || (y == cy && x < cx) {
                            v0.composited(x, y)
                        } else {
                            v0.cell_at(x, y)
                        },
                decreases w - cx,
            {
                proof {
                    lemma_index_bound(w as int, 2 * h as int, cx as int, 2 * cy as int);
                    lemma_index_bound(w as int, 2 * h as int, cx as int, 2 * cy + 1);
                    lemma_index_bound(w as int, h as int, cx as int, cy as int);
                }
                let top = (2 * cy) * w + cx;
                let bot = (2 * cy + 1) * w + cx;
                let ci = cy * w + cx;
                let cell = composite_pixel_cell(
                    self.current[ci],
                    self.px_depth[top],
                    self.px_color[top],
                    self.px_depth[bot],
                    self.px_color[bot],
                );
                proof {
                    lemma_grid_update(self.current@, w as nat, h as nat, cx as int, cy as int, cell);
                }
                self.current.set(ci, cell);
                cx += 1;
            }
            cy += 1;
        }
    }

    /// Composites the braille trail layer into cells, depth-tested against
    /// what is already there.
    pub fn composite_braille(&mut self)
        requires
            old(self)@.wf(),
        ensures
            final(self)@.wf(),
            final(self)@ == (FrameView { cells: final(self)@.cells, ..old(self)@ }),
            forall|i: int|
                0 <= i < old(self)@.n() ==> #[trigger] final(self)@.cells[i] == composite_braille_cell(
                    old(self)@.cells[i],
                    old(self)@.braille_mask[i],
                    old(self)@.braille_depth[i],
                    old(self)@.braille_color[i],
                ),
    {
        let ghost v0 = self@;
        let n = self.current.len();
        let mut i: usize = 0;
        while i < n
            invariant
                i <= n,
                n == v0.n(),
                v0.wf(),
                self.width == v0.width,
                self.height == v0.height,
                self.previous@ == v0.previous,
                self.px_color@ == v0.px_color,
                self.px_depth@ == v0.px_depth,
                self.braille_mask@ == v0.braille_mask,
                self.braille_depth@ == v0.braille_depth,
                self.braille_color@ == v0.braille_color,
                self.current@.len() == n,
                forall|j: int|
                    0 <= j < n ==> #[trigger] self.current@[j] == if j < i {
                        composite_braille_cell(
                            v0.cells[j],
                            v0.braille_mask[j],
                            v0.braille_depth[j],
                            v0.braille_color[j],
                        )
                    } else {
                        v0.cells[j]
                    },
            decreases n - i,
        {
            let cell = composite_braille_cell_exec(
                self.current[i],
                self.braille_mask[i],
                self.braille_depth[i],
                self.braille_color[i],
            );
            self.current.set(i, cell);
            i += 1;
        }
    }

    /// Blanks every cell and empties the pixel and braille layers (their
    /// depths and masks; stale colours are never shown at depth 0).
    pub fn clear(&mut self)
        requires
            old(self)@.wf(),
        ensures
            final(self)@.wf(),
            final(self)@.width == old(self)@.width,
            final(self)@.height == old(self)@.height,
            final(self)@.previous == old(self)@.previous,
            final(self)@.px_color == old(self)@.px_color,
            final(self)@.braille_color == old(self)@.braille_color,
            final(self)@.cells.len() == old(self)@.n(),
            final(self)@.px_depth.len() == 2 * old(self)@.n(),
            final(self)@.braille_mask.len() == old(self)@.n(),
            final(self)@.braille_depth.len() == old(self)@.n(),
            forall|i: int| 0 <= i < old(self)@.n() ==> #[trigger] final(self)@.cells[i] == spec_empty_cell(),
            forall|i: int| 0 <= i < 2 * old(self)@.n() ==> #[trigger] final(self)@.px_depth[i] == 0,
            forall|i: int| 0 <= i < old(self)@.n() ==> #[trigger] final(self)@.braille_mask[i] == 0,
            forall|i: int| 0 <= i < old(self)@.n() ==> #[trigger] final(self)@.braille_depth[i] == 0,
    {
        let ghost v0 = self@;
        let n = self.current.len();
        let mut i: usize = 0;
        while i < n
            invariant
                self.width == v0.width,
                self.height == v0.height,
                self.previous@ == v0.previous,
                self.px_color@ == v0.px_color,
                self.braille_color@ == v0.braille_color,
                self.px_depth@ == v0.px_depth,
                self.braille_mask@ == v0.braille_mask,
                self.braille_depth@ == v0.braille_depth,
                i <= n,
                n == self.current@.len(),
                n == v0.n(),
                v0.wf(),
                forall|j: int| 0 <= j < i ==> #[trigger] self.current@[j] == spec_empty_cell(),
            decreases n - i,
        {
            self.current.set(i, Cell::empty());
            i += 1;
        }
        let pn = self.px_depth.len();
        let mut i: usize = 0;
        while i < pn
            invariant
                self.width == v0.width,
                self.height == v0.height,
                self.previous@ == v0.previous,
                self.px_color@ == v0.px_color,
                self.braille_color@ == v0.braille_color,
                self.current@.len() == v0.cells.len(),
                forall|j: int| 0 <= j < self.current@.len() ==> #[trigger] self.current@[j] == spec_empty_cell(),
                self.braille_mask@ == v0.braille_mask,
                self.braille_depth@ == v0.braille_depth,
                i <= pn,
                pn == self.px_depth@.len(),
                pn == 2 * v0.n(),
                n == v0.n(),
                v0.wf(),
                forall|j: int| 0 <= j < i ==> #[trigger] self.px_depth@[j] == 0,
            decreases pn - i,
        {
            self.px_depth.set(i, 0);
            i += 1;
        }
        let mut i: usize = 0;
        while i < n
            invariant
                self.width == v0.width,
                self.height == v0.height,
                self.previous@ == v0.previous,
                self.px_color@ == v0.px_color,
                self.braille_color@ == v0.braille_color,
                self.current@.len() == v0.cells.len(),
                forall|j: int| 0 <= j < self.current@.len() ==> #[trigger] self.current@[j] == spec_empty_cell(),
                self.px_depth@.len() == v0.px_depth.len(),
                forall|j: int| 0 <= j < self.px_depth@.len() ==> #[trigger] self.px_depth@[j] == 0,
                self.braille_depth@ == v0.braille_depth,
                i <= n,
                n == self.braille_mask@.len(),
                n == v0.n(),
                v0.wf(),
                forall|j: int| 0 <= j < i ==> #[trigger] self.braille_mask@[j] == 0,
            decreases n - i,
        {
            self.braille_mask.set(i, 0);
            i += 1;
        }
        let mut i: usize = 0;
        while i < n
            invariant
                self.width == v0.width,
                self.height == v0.height,
                self.previous@ == v0.previous,
                self.px_color@ == v0.px_color,
                self.braille_color@ == v0.braille_color,
                self.current@.len() == v0.cells.len(),
                forall|j: int| 0 <= j < self.current@.len() ==> #[trigger] self.current@[j] == spec_empty_cell(),
                self.px_depth@.len() == v0.px_depth.len(),
                forall|j: int| 0 <= j < self.px_depth@.len() ==> #[trigger] self.px_depth@[j] == 0,
                self.braille_mask@.len() == v0.braille_mask.len(),
                forall|j: int| 0 <= j < self.braille_mask@.len() ==> #[trigger] self.braille_mask@[j] == 0,
                i <= n,
                n == self.braille_depth@.len(),
                n == v0.n(),
                v0.wf(),
                forall|j: int| 0 <= j < i ==> #[trigger] self.braille_depth@[j] == 0,
            decreases n - i,
        {
            self.braille_depth.set(i, 0);
            i += 1;
        }
    }

    /// The cells that differ from the previous frame, as (column, row, cell)
    /// in row-major order.
    pub fn dirty_cells(&self) -> (r: Vec<(u16, u16, Cell)>)
        requires
            self@.wf(),
        ensures
            r@ == self@.dirty(),
    {
        let n = self.current.len();
        let w = self.width as usize;
        let mut out: Vec<(u16, u16, Cell)> = Vec::new();
        let mut idx: usize = 0;
        while idx < n
            invariant
                idx <= n,
                n == self@.n(),
                w == self@.width,
                self@.wf(),
                out@ == self@.dirty_prefix(idx as nat),
            decreases n - idx,
        {
            assert(w > 0) by (nonlinear_arith)
                requires
                    idx < w * self@.height,
            ;
            let cur = self.current[idx];
            if cur != self.previous[idx] {
                proof {
                    vstd::arithmetic::div_mod::lemma_fundamental_div_mod(idx as int, w as int);
                    assert(idx / w < self@.height) by (nonlinear_arith)
                        requires
                            idx < w * self@.height,
                            0 < w,
                    ;
                }
                out.push(((idx % w) as u16, (idx / w) as u16, cur));
            }
            idx += 1;
        }
        out
    }

    /// Records the current frame as the one on screen.
    pub fn swap(&mut self)
        requires
            old(self)@.wf(),
        ensures
            final(self)@ == (FrameView { previous: old(self)@.cells, ..old(self)@ }),
    {
        let ghost v0 = self@;
        let n = self.current.len();
        let mut i: usize = 0;
        while i < n
            invariant
                i <= n,
                n == v0.n(),
                v0.wf(),
                self.width == v0.width,
                self.height == v0.height,
                self.current@ == v0.cells,
                self.px_color@ == v0.px_color,
                self.px_depth@ == v0.px_depth,
                self.braille_mask@ == v0.braille_mask,
                self.braille_depth@ == v0.braille_depth,
                self.braille_color@ == v0.braille_color,
                self.previous@.len() == n,
                forall|j: int| 0 <= j < i ==> #[trigger] self.previous@[j] == v0.cells[j],
            decreases n - i,
        {
            let c = self.current[i];
            self.previous.set(i, c);
            i += 1;
        }
        assert(self.previous@ =~= v0.cells);
    }

    /// The characters of the grid as text: one line per row, each ending in
    /// a newline (colours dropped).
    pub fn to_text(&self) -> (s: String)
        requires
            self@.wf(),
        ensures
            s@ == self@.text(),
    {
        let w = self.width as usize;
        let h = self.height as usize;
        let mut out: Vec<char> = Vec::new();
        let mut y: usize = 0;
        while y < h
            invariant
                y <= h,
                w == self@.width,
                h == self@.height,
                self@.wf(),
                out@ == self@.text_rows(y as nat),
            decreases h - y,
        {
            let mut x: usize = 0;
            while x < w
                invariant
                    y < h,
                    x <= w,
                    w == self@.width,
                    h == self@.height,
                    self@.wf(),
                    out@ == self@.text_rows(y as nat) + row_chars(self@.cells, w as nat, y as int).take(
                        x as int,
                    ),
                decreases w - x,
            {
                proof {
                    lemma_index_bound(w as int, h as int, x as int, y as int);
                }
                let c = self.current[y * w + x];
                out.push(c.ch);
                proof {
                    let row = row_chars(self@.cells, w as nat, y as int);
                    assert(row.take(x + 1) =~= row.take(x as int).push(c.ch));
                }
                x += 1;
            }
            out.push('\n');
            proof {
                let row = row_chars(self@.cells, w as nat, y as int);
                assert(row.take(w as int) =~= row);
            }
            y += 1;
        }
        crate::text::string_from_chars(out.as_slice())
    }
}


proof fn lemma_blank_rows(v: FrameView, rows: nat)
    requires
        v.wf(),
        rows <= v.height,
        forall|i: int| 0 <= i < v.n() ==> #[trigger] v.cells[i] == spec_empty_cell(),
    ensures
        v.text_rows(rows) == blank_text(v.width, rows),
    decreases rows,
{
    if rows > 0 {
        lemma_blank_rows(v, (rows - 1) as nat);
        let y = rows - 1;
        assert forall|x: int| 0 <= x < v.width implies #[trigger] row_chars(v.cells, v.width, y)[x]
            == ' ' by {
            lemma_index_bound(v.width as int, v.height as int, x, y);
        }
        assert(row_chars(v.cells, v.width, y) =~= Seq::new(v.width, |x: int| ' '));
    }
}

/// What a string write gives back: after writing `chars` at (`x`, `y`) on a
/// row of the grid, that row reads the string from column `x` on, cut at the
/// right edge, and every other character of the grid is unchanged.
pub proof fn lemma_write_str_reads_back(v: FrameView, x: int, y: int, chars: Seq<char>, fg: Color, bg: Color)
    requires
        v.wf(),
        0 <= x < v.width,
        0 <= y < v.height,
    ensures
        ({
            let after = v.cells_after_str(x, y, chars, fg, bg);
            let span = v.str_span(x, y, chars.len() as int);
            &&& row_chars(after, v.width, y).subrange(x, x + span) == chars.take(span)
            &&& forall|i: int|
                0 <= i < v.n() && !(y * v.width + x <= i < y * v.width + x + span) ==> #[trigger] after[i]
                    == v.cells[i]
        }),
{
    let after = v.cells_after_str(x, y, chars, fg, bg);
    let span = v.str_span(x, y, chars.len() as int);
    let w = v.width as int;
    assert forall|k: int| 0 <= k < span implies #[trigger] row_chars(after, v.width, y).subrange(x, x + span)[k]
        == chars.take(span)[k] by {
        lemma_index_bound(w, v.height as int, x + k, y);
    }
    assert(row_chars(after, v.width, y).subrange(x, x + span) =~= chars.take(span));
}

/// A buffer whose cells are all blank (as after `new`, `resize` or `clear`)
/// renders as `height` lines of `width` spaces.
pub proof fn lemma_blank_buffer_text(v: FrameView)
    requires
        v.wf(),
        forall|i: int| 0 <= i < v.n() ==> #[trigger] v.cells[i] == spec_empty_cell(),
    ensures
        v.text() == blank_text(v.width, v.height),
{
    lemma_blank_rows(v, v.height);
}

proof fn lemma_dirty_prefix_clean(v: FrameView, k: nat)
    requires
        k <= v.cells.len(),
        v.cells.len() <= v.previous.len(),
        forall|i: int| 0 <= i < k ==> #[trigger] v.cells[i] == v.previous[i],
    ensures
        v.dirty_prefix(k) == Seq::<(u16, u16, Cell)>::empty(),
    decreases k,
{
    if k > 0 {
        lemma_dirty_prefix_clean(v, (k - 1) as nat);
    }
}

/// Once the frame on screen has been recorded (`swap`), nothing is dirty
/// until something is drawn.
pub proof fn lemma_swapped_buffer_is_clean(v: FrameView)
    requires
        v.wf(),
        v.previous == v.cells,
    ensures
        v.dirty() == Seq::<(u16, u16, Cell)>::empty(),
{
    lemma_dirty_prefix_clean(v, v.n());
}

proof fn lemma_dirty_prefix_all(v: FrameView, k: nat)
    requires
        k <= v.cells.len(),
        v.cells.len() <= v.previous.len(),
        forall|i: int| 0 <= i < k ==> #[trigger] v.cells[i] != v.previous[i],
    ensures
        v.dirty_prefix(k).len() == k,
    decreases k,
{
    if k > 0 {
        lemma_dirty_prefix_all(v, (k - 1) as nat);
    }
}

/// A new buffer counts every cell as changed, so its first flush redraws
/// the whole screen.
pub proof fn lemma_new_buffer_all_dirty(v: FrameView)
    requires
        v.wf(),
        forall|i: int| 0 <= i < v.n() ==> #[trigger] v.cells[i] == spec_empty_cell(),
        forall|i: int| 0 <= i < v.n() ==> #[trigger] v.previous[i] == unseen_cell(),
    ensures
        v.dirty().len() == v.n(),
{
    assert forall|i: int| 0 <= i < v.n() implies #[trigger] v.cells[i] != v.previous[i] by {
        assert(v.cells[i].ch != v.previous[i].ch);
    }
    lemma_dirty_prefix_all(v, v.n());
}

/// The eight dots of a braille cell each own one distinct bit, so a cell's
/// mask records exactly which dots were plotted; positions outside the
/// 2 × 4 cell set no bit.
pub proof fn lemma_braille_bits_distinct()
    ensures
        forall|dx: u8, dy: u8| dx < 2 && dy < 4 ==> #[trigger] spec_braille_bit(dx, dy) != 0,
        forall|dx: u8, dy: u8| !(dx < 2 && dy < 4) ==> #[trigger] spec_braille_bit(dx, dy) == 0,
        forall|dx1: u8, dy1: u8, dx2: u8, dy2: u8|
            dx1 < 2 && dy1 < 4 && dx2 < 2 && dy2 < 4 && (dx1 != dx2 || dy1 != dy2) ==> (
            #[trigger] spec_braille_bit(dx1, dy1) & #[trigger] spec_braille_bit(dx2, dy2)) == 0,
{
    assert forall|dx1: u8, dy1: u8, dx2: u8, dy2: u8|
        dx1 < 2 && dy1 < 4 && dx2 < 2 && dy2 < 4 && (dx1 != dx2 || dy1 != dy2) implies (
        #[trigger] spec_braille_bit(dx1, dy1) & #[trigger] spec_braille_bit(dx2, dy2)) == 0 by {
        let a = spec_braille_bit(dx1, dy1);
        let b = spec_braille_bit(dx2, dy2);
        assert(a == 1 || a == 2 || a == 4 || a == 8 || a == 16 || a == 32 || a == 64 || a == 128);
        assert(a != b);
        assert((a == 1 || a == 2 || a == 4 || a == 8 || a == 16 || a == 32 || a == 64 || a == 128)
            && (b == 1 || b == 2 || b == 4 || b == 8 || b == 16 || b == 32 || b == 64 || b == 128)
            && a != b ==> a & b == 0) by (bit_vector);
    }
}

} // verus!
