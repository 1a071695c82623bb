//! A fragment: a blank region, each row cleared to spaces.

use vstd::prelude::*;

use super::{row_cell, row_string, Drawable, PaintOp};
use crate::context::Context;
use crate::error::Error;
use crate::value::Value;

verus! {

/// The props of a fragment: it carries nothing.
#[derive(Debug, PartialEq, Eq, Structural, Clone, Copy)]
pub struct FragmentProps {
}

/// The drawable a fragment renders to.
pub struct DrawFragment;

/// The fragment component: renders to a blank region whatever its props.
pub fn fragment(_c: &mut Context, _props: &Value) -> (d: DrawFragment) {
    DrawFragment
}

/// The width of the half-open range `a..b`, zero when the range is empty.
pub open spec fn extent(a: u16, b: u16) -> int {
    if a <= b {
        b - a
    } else {
        0
    }
}

impl Drawable for DrawFragment {
    /// One paint operation per row of the region, each a full row of
    /// spaces.
    fn draw(&self, x_start: u16, x_end: u16, y_start: u16, y_end: u16) -> (r: Result<
        Vec<PaintOp>,
        Error,
    >)
        ensures
            r matches Ok(ops) && ops@.len() == extent(y_start, y_end) && forall|k: int|
                0 <= k < ops@.len() ==> {
                    &&& (#[trigger] ops@[k]).x == x_start
                    &&& ops@[k].y == y_start + k
                    &&& ops@[k].text@.len() == extent(x_start, x_end)
                    &&& forall|col: int|
                        0 <= col < ops@[k].text@.len() ==> ops@[k].text@[col] == ' '
                },
    {
        let width: usize = if x_start <= x_end {
            (x_end - x_start) as usize
        } else {
            0
        };
        let height: usize = if y_start <= y_end {
            (y_end - y_start) as usize
        } else {
            0
        };
        let mut ops: Vec<PaintOp> = Vec::new();
        let mut k: usize = 0;
        while k < height
            invariant
                k <= height,
                height == extent(y_start, y_end),
                width == extent(x_start, x_end),
                y_start + height <= u16::MAX + 1,
                ops@.len() == k,
                forall|m: int|
                    0 <= m < k ==> {
                        &&& (#[trigger] ops@[m]).x == x_start
                        &&& ops@[m].y == y_start + m
                        &&& ops@[m].text@.len() == width
                        &&& forall|col: int|
                            0 <= col < ops@[m].text@.len() ==> ops@[m].text@[col] == ' '
                    },
            decreases height - k,
        {
            let text = row_string(width, false, false, false);
            proof {
                assert forall|col: int| 0 <= col < text@.len() implies text@[col] == ' ' by {
                    assert(text@[col] == row_cell(width as int, false, false, false, col));
                }
            }
            ops.push(PaintOp { x: x_start, y: y_start + (k as u16), text });
            k += 1;
        }
        Ok(ops)
    }
}

} // verus!
