//! A border: dashes along the bordered horizontal edges, pipes along the
//! bordered vertical edges, spaces in between.

use vstd::prelude::*;

use super::fragment::extent;
use super::{row_cell, row_string, Drawable, PaintOp};
use crate::context::Context;
use crate::error::Error;
use crate::value::Value;

verus! {

/// The drawable a border renders to: which of its four edges are drawn.
pub struct DrawBorder {
    pub top: bool,
    pub bottom: bool,
    pub left: bool,
    pub right: bool,
}

/// The border component: renders its props — four edge flags (top, bottom,
/// left, right) — into a border leaf. Props of any other shape render with
/// no edges.
pub fn border(_c: &mut Context, props: &Value) -> (d: DrawBorder)
    ensures
        match props@ {
            crate::value::ValueV::Sides(t, b, l, r) => {
                d.top == t && d.bottom == b && d.left == l && d.right == r
            },
            _ => !d.top && !d.bottom && !d.left && !d.right,
        },
{
    match props {
        Value::Sides(t, b, l, r) => DrawBorder { top: *t, bottom: *b, left: *l, right: *r },
        _ => DrawBorder { top: false, bottom: false, left: false, right: false },
    }
}

impl DrawBorder {
    /// Whether row `k` of a region of `height` rows is drawn as a full
    /// horizontal border row.
    pub open spec fn dash_row(self, height: int, k: int) -> bool {
        (k == 0 && self.top) || (k == height - 1 && self.bottom)
    }
}

impl Drawable for DrawBorder {
    /// One paint operation per row of the region: a dash row along a drawn
    /// top or bottom edge; otherwise a pipe on a drawn left or right edge
    /// with spaces between.
    fn draw(&self, x_start: u16, x_end: u16, y_start: u16, y_end: u16) -> (r: Result<
        Vec<PaintOp>,
        Error,
    >)
        ensures
            r matches Ok(ops) && ops@.len() == extent(y_start, y_end) && forall|k: int|
                0 <= k < ops@.len() ==> {
                    &&& (#[trigger] ops@[k]).x == x_start
                    &&& ops@[k].y == y_start + k
                    &&& ops@[k].text@.len() == extent(x_start, x_end)
                    &&& forall|col: int|
                        0 <= col < ops@[k].text@.len() ==> ops@[k].text@[col] == row_cell(
                            extent(x_start, x_end),
                            self.dash_row(extent(y_start, y_end), k),
                            self.left,
                            self.right,
                            col,
                        )
                },
    {
        let width: usize = if x_start <= x_end {
            (x_end - x_start) as usize
        } else {
            0
        };
        let height: usize = if y_start <= y_end {
            (y_end - y_start) as usize
        } else {
            0
        };
        let mut ops: Vec<PaintOp> = Vec::new();
        let mut k: usize = 0;
        while k < height
            invariant
                k <= height,
                height == extent(y_start, y_end),
                width == extent(x_start, x_end),
                y_start + height <= u16::MAX + 1,
                ops@.len() == k,
                forall|m: int|
                    0 <= m < k ==> {
                        &&& (#[trigger] ops@[m]).x == x_start
                        &&& ops@[m].y == y_start + m
                        &&& ops@[m].text@.len() == width
                        &&& forall|col: int|
                            0 <= col < ops@[m].text@.len() ==> ops@[m].text@[col] == row_cell(
                                width as int,
                                self.dash_row(height as int, m),
                                self.left,
                                self.right,
                                col,
                            )
                    },
            decreases height - k,
        {
            let dash = (k == 0 && self.top) || (k + 1 == height && self.bottom);
            let text = row_string(width, dash, self.left, self.right);
            ops.push(PaintOp { x: x_start, y: y_start + (k as u16), text });
            k += 1;
        }
        Ok(ops)
    }
}

} // verus!
