//! Widgets that draw into a buffer.
use vstd::prelude::*;
use crate::buffer::{Buffer, is_blank};
use crate::layout::Rect;

verus! {

/// A widget that blanks a region, so that what is drawn next over it (a popup,
/// say) starts from empty cells.
#[derive(Debug, Clone)]
pub struct Clear;

impl Clear {
    /// Blanks every cell of `area` in `buf` and leaves the others as they are.
    pub fn render(self, area: Rect, buf: &mut Buffer)
        requires
            old(buf).wf(),
            old(buf).area.covers(area),
            area.fits(),
        ensures
            final(buf).wf(),
            final(buf).area == old(buf).area,
            final(buf).content@.len() == old(buf).content@.len(),
            forall|i: int|
                0 <= i < final(buf).content@.len() ==> if area.holds(
                    old(buf).col_of(i),
                    old(buf).row_of(i),
                ) {
                    is_blank(#[trigger] final(buf).content@[i])
                } else {
                    final(buf).content@[i] == old(buf).content@[i]
                },
    {
        let ghost b0 = *buf;
        let right = area.right();
        let bottom = area.bottom();
        let mut x: u16 = area.left();
        while x < right
            invariant
                area.x <= x <= right,
                right == area.x + area.width,
                bottom == area.y + area.height,
                b0.wf(),
                b0.area.covers(area),
                buf.wf(),
                buf.area == b0.area,
                buf.content@.len() == b0.content@.len(),
                forall|i: int|
                    0 <= i < buf.content@.len() ==> if area.holds(b0.col_of(i), b0.row_of(i))
                        && b0.col_of(i) < x {
                        is_blank(#[trigger] buf.content@[i])
                    } else {
                        buf.content@[i] == b0.content@[i]
                    },
            decreases right - x,
        {
            let mut y: u16 = area.top();
            while y < bottom
                invariant
                    area.x <= x < right,
                    area.y <= y <= bottom,
                    right == area.x + area.width,
                    bottom == area.y + area.height,
                    b0.wf(),
                    b0.area.covers(area),
                    buf.wf(),
                    buf.area == b0.area,
                    buf.content@.len() == b0.content@.len(),
                    forall|i: int|
                        0 <= i < buf.content@.len() ==> if area.holds(b0.col_of(i), b0.row_of(i))
                            && (b0.col_of(i) < x || (b0.col_of(i) == x && b0.row_of(i) < y)) {
                            is_blank(#[trigger] buf.content@[i])
                        } else {
                            buf.content@[i] == b0.content@[i]
                        },
                decreases bottom - y,
            {
                buf.reset_at(x, y);
                y = y + 1;
            }
            x = x + 1;
        }
    }
}

} // verus!
