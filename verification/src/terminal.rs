//! Screen geometry: sizes and positions measured in terminal cells.

use vstd::prelude::*;

verus! {

/// Extent of a rectangular screen region, in cells.
#[derive(Copy, Clone, Debug, PartialEq, Eq, Structural)]
pub struct Size {
    pub width: usize,
    pub height: usize,
}

/// A cell of the screen or of the rendered document, counted from the top left.
#[derive(Copy, Clone, Debug, PartialEq, Eq, Structural)]
pub struct Position {
    pub col: usize,
    pub row: usize,
}

impl Default for Size {
    fn default() -> (size: Size)
        ensures
            size == (Size { width: 0, height: 0 }),
    {
        Size { width: 0, height: 0 }
    }
}

impl Default for Position {
    fn default() -> (position: Position)
        ensures
            position == (Position { col: 0, row: 0 }),
    {
        Position { col: 0, row: 0 }
    }
}

impl Position {
    /// Offset of `self` from `other` on each axis, stopping at zero where
    /// `other` lies beyond `self`.
    pub fn subtract(&self, other: &Position) -> (diff: Position)
        ensures
            diff.col == self.col.saturating_sub(other.col),
            diff.row == self.row.saturating_sub(other.row),
    {
        Position {
            col: self.col.saturating_sub(other.col),
            row: self.row.saturating_sub(other.row),
        }
    }
}

} // verus!
