//! Rectangles of the terminal.

use vstd::prelude::*;

verus! {

/// A rectangle of the terminal: its upper left cell, its width and its
/// height. It holds the cells from its left edge up to, and without, its
/// right edge, and from its upper edge up to, and without, its lower edge.
#[derive(Clone, Copy, Debug, PartialEq, Eq, Structural)]
pub struct Rect {
    pub x: u16,
    pub y: u16,
    pub width: u16,
    pub height: u16,
}

/// The least of `a + b` and the largest 16-bit number.
pub open spec fn capped_sum(a: u16, b: u16) -> int {
    if a + b > u16::MAX {
        u16::MAX as int
    } else {
        a + b
    }
}

impl Rect {
    /// The column of the left edge.
    pub open spec fn spec_left(self) -> int {
        self.x as int
    }

    /// The right edge: the first column behind the rectangle, capped at the
    /// largest column.
    pub open spec fn spec_right(self) -> int {
        capped_sum(self.x, self.width)
    }

    /// The row of the upper edge.
    pub open spec fn spec_top(self) -> int {
        self.y as int
    }

    /// The lower edge: the first row below the rectangle, capped at the
    /// largest row.
    pub open spec fn spec_bottom(self) -> int {
        capped_sum(self.y, self.height)
    }

    /// Whether the cell at `column`, `row` lies in the rectangle: from the
    /// left edge on and before the right edge, from the upper edge on and
    /// above the lower edge. A rectangle without width or without height
    /// holds no cell.
    pub open spec fn spec_contains(self, column: u16, row: u16) -> bool {
        &&& self.spec_left() <= column < self.spec_right()
        &&& self.spec_top() <= row < self.spec_bottom()
    }

    /// The rectangle without extent at the origin.
    pub fn empty() -> (rect: Rect)
        ensures
            rect == (Rect { x: 0, y: 0, width: 0, height: 0 }),
    {
        Rect { x: 0, y: 0, width: 0, height: 0 }
    }

    /// The column of the left edge.
    pub fn left(self) -> (column: u16)
        ensures
            column == self.spec_left(),
    {
        self.x
    }

    /// The right edge: the first column behind the rectangle, capped at the
    /// largest column.
    pub fn right(self) -> (column: u16)
        ensures
            column == self.spec_right(),
    {
        self.x.saturating_add(self.width)
    }

    /// The row of the upper edge.
    pub fn top(self) -> (row: u16)
        ensures
            row == self.spec_top(),
    {
        self.y
    }

    /// The lower edge: the first row below the rectangle, capped at the
    /// largest row.
    pub fn bottom(self) -> (row: u16)
        ensures
            row == self.spec_bottom(),
    {
        self.y.saturating_add(self.height)
    }

    /// Whether the cell at `column`, `row` lies in the rectangle.
    pub fn contains(self, column: u16, row: u16) -> (inside: bool)
        ensures
            inside == self.spec_contains(column, row),
    {
        column >= self.left() && column < self.right() && row >= self.top() && row
            < self.bottom()
    }
}

/// The cells behind the right edge and below the lower edge lie outside the
/// rectangle, and a rectangle without width or without height holds no cell.
pub proof fn lemma_cells_outside(rect: Rect, column: u16, row: u16)
    ensures
        column >= rect.x + rect.width ==> !rect.spec_contains(column, row),
        row >= rect.y + rect.height ==> !rect.spec_contains(column, row),
        rect.width == 0 || rect.height == 0 ==> !rect.spec_contains(column, row),
        rect.spec_contains(column, row) ==> rect.x <= column < rect.x + rect.width && rect.y
            <= row < rect.y + rect.height,
{
}

} // verus!
