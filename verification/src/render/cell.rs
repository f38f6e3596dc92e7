//! Terminal cells and the colours they carry.

use vstd::prelude::*;

verus! {

/// A terminal colour. `Reset` is the terminal's own default.
#[derive(Clone, Copy, Debug, PartialEq, Eq, Structural)]
pub enum Color {
    Reset,
    Black,
    DarkGrey,
    Grey,
    White,
    Yellow,
    Rgb { r: u8, g: u8, b: u8 },
}

/// Depth key of a cell that is in front of everything (panels, labels).
pub const FRONT_DEPTH: u32 = 0x7f7f_ffff;

/// One terminal character cell.
///
/// `depth` is an inverse-depth key: larger is closer, 0 means "nothing drawn".
/// It orders cells exactly as the non-negative `f32` inverse depth whose bit
/// pattern it is.
#[derive(Clone, Copy, Debug, PartialEq, Eq, Structural)]
pub struct Cell {
    pub ch: char,
    pub fg: Color,
    pub bg: Color,
    pub depth: u32,
}

/// The blank cell: a space in default colours at depth 0.
pub open spec fn spec_empty_cell() -> Cell {
    Cell { ch: ' ', fg: Color::Reset, bg: Color::Reset, depth: 0 }
}

impl Cell {
    /// The blank cell: a space in default colours at depth 0.
    pub fn empty() -> (c: Cell)
        ensures
            c == spec_empty_cell(),
    {
        Cell { ch: ' ', fg: Color::Reset, bg: Color::Reset, depth: 0 }
    }
}

} // verus!
