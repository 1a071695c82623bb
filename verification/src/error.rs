//! The error taxonomy of the runtime.
//!
//! There is one external-facing kind, an I/O failure raised by anything that
//! touches the terminal device. Internal invariant violations — a hook slot
//! revisited with a different value shape, a child key reused with a
//! different props shape, or a store whose length and cursor fell out of
//! step — are programming errors by the calling component; they are
//! distinguished from the I/O kind and reported at the point of violation
//! rather than silently continued from.

use vstd::prelude::*;

verus! {

/// What went wrong during a render pass or a runtime step.
#[derive(Debug, PartialEq, Eq, Structural, Clone, Copy)]
pub enum Error {
    /// A failure of the underlying terminal device or input stream.
    Io,
    /// A state hook slot was revisited expecting a different value shape.
    StateTypeMismatch,
    /// An effect hook slot was revisited with arguments of a different
    /// shape.
    EffectTypeMismatch,
    /// A child key was reused with props of a different shape.
    ChildTypeMismatch,
    /// A store was addressed past its length: its length and a hook cursor
    /// fell out of step.
    StoreDesync,
}

} // verus!
