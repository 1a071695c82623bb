//! The dynamic value type carried by hooks.
//!
//! Component props, hook state, and effect arguments are all
//! equality-comparable values. They are held in per-slot stores whose slots
//! may carry values of differing shapes, so the stores use one tagged union
//! covering the shapes the runtime supports; a slot's expected shape is
//! re-checked on every visit, and a mismatch is an unrecoverable programming
//! error reported as such.

use vstd::prelude::*;

verus! {

/// A dynamic hook value: props, state, or effect arguments.
#[derive(Debug)]
pub enum Value {
    /// The empty value.
    Unit,
    /// A boolean.
    Bool(bool),
    /// A signed integer.
    Int(i64),
    /// A text value.
    Text(String),
    /// Four edge flags (top, bottom, left, right), the props shape of the
    /// border component.
    Sides(bool, bool, bool, bool),
}

/// The mathematical content of a `Value`: text is abstracted to its
/// character sequence, so two values are interchangeable exactly when their
/// views are equal.
pub enum ValueV {
    Unit,
    Bool(bool),
    Int(int),
    Text(Seq<char>),
    Sides(bool, bool, bool, bool),
}

/// The shape of a `Value`, used for hook-slot type checks.
#[derive(Debug, PartialEq, Eq, Structural, Clone, Copy)]
pub enum ValueKind {
    Unit,
    Bool,
    Int,
    Text,
    Sides,
}

impl ValueV {
    /// The shape of an abstract value.
    pub open spec fn kind(self) -> ValueKind {
        match self {
            ValueV::Unit => ValueKind::Unit,
            ValueV::Bool(_) => ValueKind::Bool,
            ValueV::Int(_) => ValueKind::Int,
            ValueV::Text(_) => ValueKind::Text,
            ValueV::Sides(_, _, _, _) => ValueKind::Sides,
        }
    }
}

impl View for Value {
    type V = ValueV;

    open spec fn view(&self) -> ValueV {
        match self {
            Value::Unit => ValueV::Unit,
            Value::Bool(b) => ValueV::Bool(*b),
            Value::Int(n) => ValueV::Int(*n as int),
            Value::Text(s) => ValueV::Text(s@),
            Value::Sides(t, b, l, r) => ValueV::Sides(*t, *b, *l, *r),
        }
    }
}

impl Value {
    /// The shape of this value, as an executable tag.
    pub fn kind(&self) -> (k: ValueKind)
        ensures
            k == self@.kind(),
    {
        match self {
            Value::Unit => ValueKind::Unit,
            Value::Bool(_) => ValueKind::Bool,
            Value::Int(_) => ValueKind::Int,
            Value::Text(_) => ValueKind::Text,
            Value::Sides(_, _, _, _) => ValueKind::Sides,
        }
    }
}

/// Decide equality of the views of two values.
pub fn value_eq(a: &Value, b: &Value) -> (r: bool)
    ensures
        r == (a@ == b@),
{
    match a {
        Value::Unit => match b {
            Value::Unit => true,
            _ => false,
        },
        Value::Bool(x) => match b {
            Value::Bool(y) => x == y,
            _ => false,
        },
        Value::Int(x) => match b {
            Value::Int(y) => x == y,
            _ => false,
        },
        Value::Text(x) => match b {
            Value::Text(y) => *x == *y,
            _ => false,
        },
        Value::Sides(t1, b1, l1, r1) => match b {
            Value::Sides(t2, b2, l2, r2) => t1 == t2 && b1 == b2 && l1 == l2 && r1 == r2,
            _ => false,
        },
    }
}

impl Clone for Value {
    /// Clones preserve the view.
    fn clone(&self) -> (r: Value)
        ensures
            r@ == self@,
    {
        match self {
            Value::Unit => Value::Unit,
            Value::Bool(b) => Value::Bool(*b),
            Value::Int(n) => Value::Int(*n),
            Value::Text(s) => Value::Text(s.clone()),
            Value::Sides(t, b, l, r) => Value::Sides(*t, *b, *l, *r),
        }
    }
}

} // verus!
