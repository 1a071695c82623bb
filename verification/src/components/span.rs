//! A span: a single line of text drawn at the top-left corner of its
//! region.

use vstd::prelude::*;

use super::{Drawable, PaintOp};
use crate::context::Context;
use crate::error::Error;
use crate::value::Value;

verus! {

/// The drawable a span renders to: its text content.
pub struct DrawSpan {
    pub content: String,
}

/// The span component: renders its props — a text value — into a text
/// leaf. Props of any other shape render as empty text.
pub fn span(_c: &mut Context, props: &Value) -> (d: DrawSpan)
    ensures
        d.content@ == match props@ {
            crate::value::ValueV::Text(s) => s,
            _ => Seq::<char>::empty(),
        },
{
    match props {
        Value::Text(s) => DrawSpan { content: s.clone() },
        _ => DrawSpan { content: String::new() },
    }
}

impl Drawable for DrawSpan {
    /// One paint operation: the content at the top-left corner of the
    /// region.
    fn draw(&self, x_start: u16, x_end: u16, y_start: u16, y_end: u16) -> (r: Result<
        Vec<PaintOp>,
        Error,
    >)
        ensures
            r matches Ok(ops) && ops@.len() == 1 && ops@[0].x == x_start && ops@[0].y == y_start
                && ops@[0].text@ == self.content@,
    {
        let mut ops: Vec<PaintOp> = Vec::new();
        ops.push(PaintOp { x: x_start, y: y_start, text: self.content.clone() });
        Ok(ops)
    }
}

} // verus!
