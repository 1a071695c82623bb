//! The built-in leaf components and the drawable contract.
//!
//! A drawable paints itself into a rectangular region by producing paint
//! operations — a text placed at a cell — which the terminal glue writes to
//! the device. The built-in components are trivial leaf drawers: a span of
//! text, a blank fragment, and a border.

mod border;
mod fragment;
mod span;

pub use border::border;
pub use border::DrawBorder;
pub use fragment::fragment;
pub use fragment::DrawFragment;
pub use fragment::FragmentProps;
pub use span::span;
pub use span::DrawSpan;

use vstd::prelude::*;

use crate::error::Error;

verus! {

/// One paint operation: write `text` starting at column `x` of row `y`.
#[derive(Debug)]
pub struct PaintOp {
    pub x: u16,
    pub y: u16,
    pub text: String,
}

/// A node capable of painting itself into a rectangular terminal region:
/// the two half-open ranges `x_start..x_end` and `y_start..y_end`. The
/// runtime guarantees the region it passes lies within the context's
/// assigned region.
pub trait Drawable {
    fn draw(&self, x_start: u16, x_end: u16, y_start: u16, y_end: u16) -> Result<
        Vec<PaintOp>,
        Error,
    >;
}

/// The character of column `col` in a rendered row of width `width`: a full
/// dash row for a horizontal border, otherwise a pipe on a bordered edge
/// and a space in between.
pub open spec fn row_cell(width: int, dash: bool, left: bool, right: bool, col: int) -> char {
    if dash {
        '-'
    } else if col == 0 && left {
        '|'
    } else if col == width - 1 && right {
        '|'
    } else {
        ' '
    }
}

/// Build one row of `width` cells as laid out by `row_cell`.
pub fn row_string(width: usize, dash: bool, left: bool, right: bool) -> (s: String)
    ensures
        s@.len() == width,
        forall|col: int|
            0 <= col < width ==> s@[col] == row_cell(width as int, dash, left, right, col),
{
    proof {
        reveal_strlit("-");
        reveal_strlit("|");
        reveal_strlit(" ");
    }
    let mut s = String::new();
    let mut col: usize = 0;
    while col < width
        invariant
            col <= width,
            s@.len() == col,
            forall|c: int| 0 <= c < col ==> s@[c] == row_cell(width as int, dash, left, right, c),
        decreases width - col,
    {
        if dash {
            s.append("-");
        } else if col == 0 && left {
            s.append("|");
        } else if col + 1 == width && right {
            s.append("|");
        } else {
            s.append(" ");
        }
        proof {
            reveal_strlit("-");
            reveal_strlit("|");
            reveal_strlit(" ");
        }
        col += 1;
    }
    s
}

} // verus!
