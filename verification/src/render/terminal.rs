//! Bringing a terminal screen up to date: the operations that redraw the
//! changed cells of a frame, with colour changes sent only when the pen's
//! colour differs from the cell's.

use vstd::prelude::*;

use crate::render::cell::{Cell, Color};
use crate::render::framebuffer::FrameView;

verus! {

/// One terminal operation.
#[derive(Clone, Copy, Debug, PartialEq, Eq, Structural)]
pub enum TermOp {
    /// Move the cursor to (column, row).
    MoveTo(u16, u16),
    /// Set the pen's foreground colour.
    Foreground(Color),
    /// Set the pen's background colour.
    Background(Color),
    /// Print a character at the cursor in the pen's colours.
    Print(char),
}

/// The operations for the changed cells `cells` (column, row, cell), in
/// order, with the pen's colours after them. The pen starts in the default
/// colours; each cell moves the cursor, sets whichever pen colour differs
/// from the cell's, and prints the cell's character.
pub open spec fn ops_and_pen(cells: Seq<(u16, u16, Cell)>) -> (Seq<TermOp>, Color, Color)
    decreases cells.len(),
{
    if cells.len() == 0 {
        (Seq::empty(), Color::Reset, Color::Reset)
    } else {
        let (ops, fg, bg) = ops_and_pen(cells.drop_last());
        let (x, y, c) = cells.last();
        let ops = ops.push(TermOp::MoveTo(x, y));
        let ops = if c.fg != fg {
            ops.push(TermOp::Foreground(c.fg))
        } else {
            ops
        };
        let ops = if c.bg != bg {
            ops.push(TermOp::Background(c.bg))
        } else {
            ops
        };
        (ops.push(TermOp::Print(c.ch)), c.fg, c.bg)
    }
}

/// The operations that redraw `cells`.
pub open spec fn update_ops_of(cells: Seq<(u16, u16, Cell)>) -> Seq<TermOp> {
    ops_and_pen(cells).0
}

/// The operations that redraw the changed cells, in order.
pub fn update_ops(cells: &Vec<(u16, u16, Cell)>) -> (ops: Vec<TermOp>)
    ensures
        ops@ == update_ops_of(cells@),
{
    let mut ops: Vec<TermOp> = Vec::new();
    let mut fg = Color::Reset;
    let mut bg = Color::Reset;
    let mut i: usize = 0;
    while i < cells.len()
        invariant
            i <= cells@.len(),
            ops_and_pen(cells@.take(i as int)) == (ops@, fg, bg),
        decreases cells@.len() - i,
    {
        let (x, y, c) = cells[i];
        ops.push(TermOp::MoveTo(x, y));
        if c.fg != fg {
            ops.push(TermOp::Foreground(c.fg));
            fg = c.fg;
        }
        if c.bg != bg {
            ops.push(TermOp::Background(c.bg));
            bg = c.bg;
        }
        ops.push(TermOp::Print(c.ch));
        assert(cells@.take(i + 1).drop_last() =~= cells@.take(i as int));
        i += 1;
    }
    assert(cells@.take(cells@.len() as int) =~= cells@);
    ops
}

/// A terminal screen as the operations see it: what each cell shows
/// (character, foreground, background), row-major and `width` wide, the
/// cursor, and the pen's colours.
pub struct Screen {
    pub width: nat,
    pub shown: Seq<(char, Color, Color)>,
    pub cursor: (u16, u16),
    pub fg: Color,
    pub bg: Color,
}

/// The screen after one operation. Printing writes the cell under the
/// cursor (if it is on the screen) and moves the cursor one column right.
pub open spec fn apply_op(s: Screen, op: TermOp) -> Screen {
    match op {
        TermOp::MoveTo(x, y) => Screen { cursor: (x, y), ..s },
        TermOp::Foreground(c) => Screen { fg: c, ..s },
        TermOp::Background(c) => Screen { bg: c, ..s },
        TermOp::Print(ch) => {
            let (x, y) = s.cursor;
            let shown = if x < s.width && y * s.width + x < s.shown.len() {
                s.shown.update(y * s.width + x, (ch, s.fg, s.bg))
            } else {
                s.shown
            };
            Screen { shown, cursor: ((if x < u16::MAX { x + 1 } else { x as int }) as u16, y), ..s }
        },
    }
}

/// The screen after a run of operations, first to last.
pub open spec fn apply_ops(s: Screen, ops: Seq<TermOp>) -> Screen
    decreases ops.len(),
{
    if ops.len() == 0 {
        s
    } else {
        apply_op(apply_ops(s, ops.drop_last()), ops.last())
    }
}

/// What a row-major grid of cells shows.
pub open spec fn shown_cells(cells: Seq<Cell>) -> Seq<(char, Color, Color)> {
    Seq::new(cells.len(), |i: int| (cells[i].ch, cells[i].fg, cells[i].bg))
}

proof fn lemma_apply_ops_push(s: Screen, ops: Seq<TermOp>, op: TermOp)
    ensures
        apply_ops(s, ops.push(op)) == apply_op(apply_ops(s, ops), op),
{
    assert(ops.push(op).drop_last() =~= ops);
}

/// The changed cells among the first `k`, with the screen the operations
/// for them leave behind: the first `k` cells show the frame, the rest still
/// show the previous one, and the pen holds the colours the operations last
/// set.
proof fn lemma_prefix_redraw(v: FrameView, s: Screen, k: nat)
    requires
        v.wf(),
        v.width > 0,
        k <= v.n(),
        s.width == v.width,
        s.shown == shown_cells(v.previous),
        s.fg == Color::Reset,
        s.bg == Color::Reset,
    ensures
        ({
            let (ops, fg, bg) = ops_and_pen(v.dirty_prefix(k));
            let t = apply_ops(s, ops);
            &&& t.width == s.width
            &&& t.fg == fg
            &&& t.bg == bg
            &&& t.shown.len() == v.n()
            &&& forall|i: int| 0 <= i < k ==> #[trigger] t.shown[i] == shown_cells(v.cells)[i]
            &&& forall|i: int| k <= i < v.n() ==> #[trigger] t.shown[i] == shown_cells(v.previous)[i]
        }),
    decreases k,
{
    if k == 0 {
        return;
    }
    let j = k - 1;
    lemma_prefix_redraw(v, s, j as nat);
    let (ops0, fg0, bg0) = ops_and_pen(v.dirty_prefix(j as nat));
    let t0 = apply_ops(s, ops0);
    if v.cells[j] == v.previous[j] {
        assert(v.dirty_prefix(k) == v.dirty_prefix(j as nat));
        assert(shown_cells(v.cells)[j] == shown_cells(v.previous)[j]);
    } else {
        let w = v.width as int;
        let x = (j % w) as u16;
        let y = (j / w) as u16;
        let c = v.cells[j];
        assert(v.dirty_prefix(k) == v.dirty_prefix(j as nat).push((x, y, c)));
        assert(v.dirty_prefix(k).drop_last() =~= v.dirty_prefix(j as nat));
        // The cursor lands on cell j.
        assert(0 <= j % w < w) by {
            vstd::arithmetic::div_mod::lemma_mod_pos_bound(j, w);
        }
        assert(w * (j / w) + j % w == j) by {
            vstd::arithmetic::div_mod::lemma_fundamental_div_mod(j, w);
        }
        assert(0 <= j / w < v.height as int) by {
            vstd::arithmetic::div_mod::lemma_multiply_divide_lt(j, w, v.height as int);
            assert(j / w >= 0) by (nonlinear_arith)
                requires
                    j >= 0,
                    w > 0,
            ;
        }
        assert(x as int == j % w && y as int == j / w);
        assert((j / w) * w == w * (j / w)) by (nonlinear_arith);
        let m = ops0.push(TermOp::MoveTo(x, y));
        lemma_apply_ops_push(s, ops0, TermOp::MoveTo(x, y));
        let m1 = if c.fg != fg0 {
            m.push(TermOp::Foreground(c.fg))
        } else {
            m
        };
        if c.fg != fg0 {
            lemma_apply_ops_push(s, m, TermOp::Foreground(c.fg));
        }
        let m2 = if c.bg != bg0 {
            m1.push(TermOp::Background(c.bg))
        } else {
            m1
        };
        if c.bg != bg0 {
            lemma_apply_ops_push(s, m1, TermOp::Background(c.bg));
        }
        lemma_apply_ops_push(s, m2, TermOp::Print(c.ch));
        let before = apply_ops(s, m2);
        assert(before.cursor == (x, y));
        assert(before.fg == c.fg && before.bg == c.bg);
        assert(before.shown == t0.shown);
        let after = apply_ops(s, m2.push(TermOp::Print(c.ch)));
        assert(after.shown == t0.shown.update(j, (c.ch, c.fg, c.bg)));
    }
}

/// Replaying the operations for a frame's changed cells on a screen that
/// shows the previous frame, with the pen in the default colours, leaves the
/// screen showing the frame.
pub proof fn lemma_update_shows_frame(v: FrameView, s: Screen)
    requires
        v.wf(),
        s.width == v.width,
        s.shown == shown_cells(v.previous),
        s.fg == Color::Reset,
        s.bg == Color::Reset,
    ensures
        apply_ops(s, update_ops_of(v.dirty())).shown == shown_cells(v.cells),
{
    if v.width == 0 {
        assert(v.n() == 0) by (nonlinear_arith)
            requires
                v.width == 0,
                v.n() == v.width * v.height,
        ;
        assert(v.dirty() == v.dirty_prefix(0));
        assert(shown_cells(v.cells) =~= shown_cells(v.previous));
    } else {
        lemma_prefix_redraw(v, s, v.n());
        let t = apply_ops(s, update_ops_of(v.dirty()));
        assert(t.shown =~= shown_cells(v.cells));
    }
}

} // verus!
