//! A reactive terminal UI runtime: components are render functions that
//! receive a persistent per-instance context offering hook-based local state,
//! argument-diffed side effects, and keyed child reconciliation. The runtime
//! loop serializes redraws and schedules effect work from a single event
//! stream.

pub mod canvas;
pub mod components;
pub mod context;
pub mod error;
pub mod tui;
pub mod value;

use vstd::prelude::*;

pub use canvas::{Canvas, CrosstermCanvas};
pub use components::{border, fragment, span};
pub use components::{DrawBorder, DrawFragment, DrawSpan, Drawable, FragmentProps, PaintOp};
pub use context::children::{ChildEntry, ChildIdentifier, ChildStore};
pub use context::effects::EffectStore;
pub use context::state::{StateSetter, StateStore};
pub use context::Context;
pub use error::Error;
pub use tui::{handle_event, translate_input, EffectScheduler, Event, InputEvent, LoopStep, Tui};
pub use value::{value_eq, Value, ValueKind, ValueV};

verus! {

/// A component: a render function mapping a context and props to a
/// drawable. Implementations are supplied by the caller of the runtime;
/// within its render function a component may use the context's hooks and
/// add children, in a fixed order per context.
pub trait Component {
    type Output;

    /// Produce this component's drawable for the given props, using the
    /// context's hooks for per-instance state.
    fn render(&self, c: &mut Context, props: &Value) -> Self::Output;
}

} // verus!
