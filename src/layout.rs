//! Rectangles of the terminal's character grid.
use vstd::prelude::*;

verus! {

/// A region of the grid: its top-left corner and its size in cells.
#[derive(Clone, Copy, Debug, PartialEq, Eq, Structural)]
pub struct Rect {
    pub x: u16,
    pub y: u16,
    pub width: u16,
    pub height: u16,
}

impl Rect {
    /// Whether the cell at `(px, py)` lies in the rectangle.
    pub open spec fn holds(self, px: int, py: int) -> bool {
        &&& self.x <= px < self.x + self.width
        &&& self.y <= py < self.y + self.height
    }

    /// Whether `inner` lies within this rectangle.
    pub open spec fn covers(self, inner: Rect) -> bool {
        &&& self.x <= inner.x
        &&& inner.x + inner.width <= self.x + self.width
        &&& self.y <= inner.y
        &&& inner.y + inner.height <= self.y + self.height
    }

    /// Whether the right and bottom edges fit in a `u16`.
    pub open spec fn fits(self) -> bool {
        &&& self.x + self.width <= u16::MAX
        &&& self.y + self.height <= u16::MAX
    }

    pub fn new(x: u16, y: u16, width: u16, height: u16) -> (r: Rect)
        ensures
            r == (Rect { x, y, width, height }),
    {
        Rect { x, y, width, height }
    }

    pub fn left(self) -> (r: u16)
        ensures
            r == self.x,
    {
        self.x
    }

    /// The first column right of the rectangle.
    pub fn right(self) -> (r: u16)
        requires
            self.fits(),
        ensures
            r == self.x + self.width,
    {
        self.x + self.width
    }

    pub fn top(self) -> (r: u16)
        ensures
            r == self.y,
    {
        self.y
    }

    /// The first row below the rectangle.
    pub fn bottom(self) -> (r: u16)
        requires
            self.fits(),
        ensures
            r == self.y + self.height,
    {
        self.y + self.height
    }

    /// The number of cells in the rectangle.
    pub fn area(self) -> (r: usize)
        ensures
            r == self.width * self.height,
    {
        proof {
            vstd::arithmetic::mul::lemma_mul_upper_bound(
                self.width as int,
                u16::MAX as int,
                self.height as int,
                u16::MAX as int,
            );
        }
        (self.width as usize) * (self.height as usize)
    }
}

} // verus!
