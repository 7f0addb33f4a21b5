//! Cells and the rectangular buffer that holds them.
use vstd::prelude::*;
use crate::layout::Rect;
use crate::style::{CellColor, Modifier, no_flags};

verus! {

/// One character position: its glyph, colors and style flags.
#[derive(Clone, Debug, PartialEq, Eq)]
pub struct Cell {
    pub symbol: String,
    pub fg: CellColor,
    pub bg: CellColor,
    pub modifier: Modifier,
}

/// A cell as `Cell::reset` leaves it: one space, default colors, no flags.
pub open spec fn is_blank(c: Cell) -> bool {
    &&& c.symbol@ == " "@
    &&& c.fg == CellColor::Reset
    &&& c.bg == CellColor::Reset
    &&& c.modifier == no_flags()
}

impl Cell {
    /// A blank cell.
    pub fn blank() -> (r: Cell)
        ensures
            is_blank(r),
    {
        Cell {
            symbol: String::from_str(" "),
            fg: CellColor::Reset,
            bg: CellColor::Reset,
            modifier: Modifier::empty(),
        }
    }

    /// Turns the cell back into a blank one.
    pub fn reset(&mut self)
        ensures
            is_blank(*final(self)),
    {
        self.symbol = String::from_str(" ");
        self.fg = CellColor::Reset;
        self.bg = CellColor::Reset;
        self.modifier = Modifier::empty();
    }
}

/// The cells of a rectangle, row by row.
#[derive(Clone, Debug, PartialEq, Eq)]
pub struct Buffer {
    pub area: Rect,
    pub content: Vec<Cell>,
}

impl Buffer {
    /// One cell for each position of the area.
    pub open spec fn wf(&self) -> bool {
        self.content@.len() == self.area.width * self.area.height
    }

    /// The column of the cell at index `i`.
    pub open spec fn col_of(&self, i: int) -> int {
        self.area.x + i % (self.area.width as int)
    }

    /// The row of the cell at index `i`.
    pub open spec fn row_of(&self, i: int) -> int {
        self.area.y + i / (self.area.width as int)
    }

    /// A buffer of blank cells over `area`.
    pub fn empty(area: Rect) -> (r: Buffer)
        ensures
            r.wf(),
            r.area == area,
            forall|i: int| 0 <= i < r.content@.len() ==> is_blank(#[trigger] r.content@[i]),
    {
        let n = area.area();
        let mut content: Vec<Cell> = Vec::new();
        let mut i: usize = 0;
        while i < n
            invariant
                i <= n,
                content@.len() == i,
                forall|k: int| 0 <= k < i ==> is_blank(#[trigger] content@[k]),
            decreases n - i,
        {
            content.push(Cell::blank());
            i = i + 1;
        }
        Buffer { area, content }
    }

    /// The index of the cell at `(x, y)`.
    pub fn index_of(&self, x: u16, y: u16) -> (r: usize)
        requires
            self.wf(),
            self.area.holds(x as int, y as int),
        ensures
            r == (y - self.area.y) * self.area.width + (x - self.area.x),
            r < self.content@.len(),
            self.col_of(r as int) == x,
            self.row_of(r as int) == y,
    {
        let w = self.area.width as usize;
        let dy = (y - self.area.y) as usize;
        let dx = (x - self.area.x) as usize;
        let ghost h = self.area.height as int;
        let n = self.content.len();
        proof {
            assert((dy as int) * (w as int) + (dx as int) < h * (w as int)) by (nonlinear_arith)
                requires
                    (dy as int) < h,
                    (dx as int) < (w as int),
            ;
            assert(h * (w as int) == (w as int) * h) by (nonlinear_arith);
            assert((dy as int) * (w as int) + (dx as int) < n as int);
            vstd::arithmetic::div_mod::lemma_fundamental_div_mod_converse(
                (dy as int) * (w as int) + (dx as int),
                w as int,
                dy as int,
                dx as int,
            );
        }
        dy * w + dx
    }

    /// Turns the cell at `(x, y)` blank and leaves the others as they are.
    pub fn reset_at(&mut self, x: u16, y: u16)
        requires
            old(self).wf(),
            old(self).area.holds(x as int, y as int),
        ensures
            final(self).wf(),
            final(self).area == old(self).area,
            final(self).content@.len() == old(self).content@.len(),
            forall|i: int|
                0 <= i < final(self).content@.len() ==> if old(self).col_of(i) == x && old(self).row_of(
                    i,
                ) == y {
                    is_blank(#[trigger] final(self).content@[i])
                } else {
                    final(self).content@[i] == old(self).content@[i]
                },
    {
        let i = self.index_of(x, y);
        self.content.set(i, Cell::blank());
        assert forall|k: int|
            0 <= k < self.content@.len() && old(self).col_of(k) == x && old(self).row_of(k)
                == y implies k == i by {
            lemma_position_unique(old(self), k, i as int);
        }
    }
}

/// Two indices of a buffer at the same column and row are the same index.
pub proof fn lemma_position_unique(buf: &Buffer, i: int, j: int)
    requires
        buf.wf(),
        0 <= i < buf.content@.len(),
        0 <= j < buf.content@.len(),
        buf.col_of(i) == buf.col_of(j),
        buf.row_of(i) == buf.row_of(j),
    ensures
        i == j,
{
    let w = buf.area.width as int;
    assert(w > 0) by {
        if w == 0 {
            vstd::arithmetic::mul::lemma_mul_basics(buf.area.height as int);
        }
    }
    vstd::arithmetic::div_mod::lemma_fundamental_div_mod(i, w);
    vstd::arithmetic::div_mod::lemma_fundamental_div_mod(j, w);
}

} // verus!
