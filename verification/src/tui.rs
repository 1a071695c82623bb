//! The runtime loop model.
//!
//! The runtime owns the terminal for the process lifetime. Four cooperating
//! loops — a blocking OS-input reader, a synchronous-to-asynchronous channel
//! bridge, an effect scheduler, and the render loop that is the sole mutator
//! of the root context — communicate through channels of `Event`. The
//! decisions those loops take are modeled here as verified transition
//! functions; the surrounding channel, task, and terminal plumbing is
//! ordinary unverified glue that consults them.

use vstd::prelude::*;

use crate::components::{Drawable, PaintOp};
use crate::context::Context;
use crate::error::Error;
use crate::Component;

verus! {

/// A runtime-level event. Exactly one kind is active per instance.
#[derive(Debug, PartialEq, Eq, Structural, Clone, Copy)]
pub enum Event {
    /// Request passed up to redraw the component tree.
    Redraw,
    /// The terminal has been resized.
    Resized(u16, u16),
    /// An effect has been scheduled; its unit of work travels beside the
    /// event stream.
    NewEffect,
    /// Terminate the runtime.
    Exit,
}

/// An OS-level terminal input, as read by the input loop.
pub enum InputEvent {
    /// The terminal was resized to the given width and height.
    Resize(u16, u16),
    /// A key was pressed: whether the control modifier was held, and the
    /// character produced, if the key produces one.
    Key { ctrl: bool, chr: Option<char> },
    /// A mouse event.
    Mouse,
}

/// What the input loop forwards for a given OS input: a resize becomes a
/// `Resized` event, the interrupt chord (control plus the letter c) becomes
/// `Exit`, and all other input is dropped.
pub open spec fn translated_input(e: InputEvent) -> Option<Event> {
    match e {
        InputEvent::Resize(w, h) => Some(Event::Resized(w, h)),
        InputEvent::Key { ctrl, chr } => {
            if ctrl && chr == Some('c') {
                Some(Event::Exit)
            } else {
                None
            }
        },
        InputEvent::Mouse => None,
    }
}

/// Translate one OS input into the event to forward, if any.
pub fn translate_input(e: &InputEvent) -> (r: Option<Event>)
    ensures
        r == translated_input(*e),
{
    match e {
        InputEvent::Resize(w, h) => Some(Event::Resized(*w, *h)),
        InputEvent::Key { ctrl, chr } => {
            match chr {
                Some(c) => {
                    if *ctrl && *c == 'c' {
                        Some(Event::Exit)
                    } else {
                        None
                    }
                },
                None => None,
            }
        },
        InputEvent::Mouse => None,
    }
}

/// What the render loop does with one received event: keep looping with
/// nothing to do, write the given paint operations and flush, hand the
/// newly scheduled unit of work to the effect loop, or stop.
#[derive(Debug)]
pub enum LoopStep {
    Continue,
    Painted(Vec<PaintOp>),
    Forward,
    Stop,
}

/// The render loop's dispatch: the sole mutator of the root context, it
/// handles events in arrival order. A redraw event renders the root
/// context and yields the paint operations; a resize event assigns the
/// root region anew from the origin; a new-effect event is handed on to
/// the effect loop; an exit event stops the loop.
pub fn handle_event<C: Component>(ctx: &mut Context, component: &C, e: &Event) -> (r: Result<
    LoopStep,
    Error,
>) where C::Output: Drawable
    ensures
        match *e {
            Event::Exit => r matches Ok(s) && s is Stop && *final(ctx) == *old(ctx),
            Event::Redraw => r matches Ok(s) ==> s is Painted && Context::post_draw(*final(ctx)),
            Event::Resized(w, h) => r matches Ok(s) && s is Continue
                && Context::update_size_rel(*old(ctx), (0u16, w, 0u16, h), *final(ctx)),
            Event::NewEffect => r matches Ok(s) && s is Forward && *final(ctx) == *old(ctx),
        },
{
    match e {
        Event::Exit => Ok(LoopStep::Stop),
        Event::Redraw => {
            match ctx.render(component) {
                Ok(ops) => Ok(LoopStep::Painted(ops)),
                Err(err) => Err(err),
            }
        },
        Event::Resized(w, h) => {
            ctx.update_size(0, *w, 0, *h);
            Ok(LoopStep::Continue)
        },
        Event::NewEffect => Ok(LoopStep::Forward),
    }
}

/// The terminal-mode state machine of the runtime.
///
/// Raw input mode and the alternate screen are acquired on setup and must
/// both be released exactly once when the runtime ends, whatever ended it.
/// The device operations themselves are performed by the unverified glue;
/// this type decides, and records, which operations are due.
pub struct Tui {
    raw: bool,
    alternate_screen: bool,
    raw_active: bool,
    alt_active: bool,
}

impl Tui {
    /// Whether this instance is configured to use raw input mode.
    pub closed spec fn wants_raw(self) -> bool {
        self.raw
    }

    /// Whether this instance is configured to use the alternate screen.
    pub closed spec fn wants_alt_screen(self) -> bool {
        self.alternate_screen
    }

    /// Whether raw input mode is currently held on the device.
    pub closed spec fn raw_mode_active(self) -> bool {
        self.raw_active
    }

    /// Whether the alternate screen is currently entered on the device.
    pub closed spec fn alt_screen_active(self) -> bool {
        self.alt_active
    }

    /// The teardown transition: both terminal modes are released; nothing
    /// else changes.
    pub open spec fn teardown_rel(pre: Tui, post: Tui) -> bool {
        &&& !post.raw_mode_active()
        &&& !post.alt_screen_active()
        &&& post.wants_raw() == pre.wants_raw()
        &&& post.wants_alt_screen() == pre.wants_alt_screen()
    }

    /// A default instance: raw mode and alternate screen both wanted,
    /// neither yet held.
    pub fn new_default() -> (t: Tui)
        ensures
            t.wants_raw(),
            t.wants_alt_screen(),
            !t.raw_mode_active(),
            !t.alt_screen_active(),
    {
        Tui { raw: true, alternate_screen: true, raw_active: false, alt_active: false }
    }

    /// Acquire the configured terminal modes. Returns which device
    /// operations the glue must perform: (enable raw mode, enter the
    /// alternate screen).
    pub fn setup(&mut self) -> (ops: (bool, bool))
        requires
            !old(self).raw_mode_active(),
            !old(self).alt_screen_active(),
        ensures
            final(self).raw_mode_active() == old(self).wants_raw(),
            final(self).alt_screen_active() == old(self).wants_alt_screen(),
            final(self).wants_raw() == old(self).wants_raw(),
            final(self).wants_alt_screen() == old(self).wants_alt_screen(),
            ops == (old(self).wants_raw(), old(self).wants_alt_screen()),
    {
        self.raw_active = self.raw;
        self.alt_active = self.alternate_screen;
        (self.raw, self.alternate_screen)
    }

    /// Release whatever terminal modes are held. Returns which device
    /// operations the glue must perform: (disable raw mode, leave the
    /// alternate screen). Tearing down an already-released instance
    /// performs no device operation.
    pub fn teardown(&mut self) -> (ops: (bool, bool))
        ensures
            Tui::teardown_rel(*old(self), *final(self)),
            ops == (old(self).raw_mode_active(), old(self).alt_screen_active()),
            !old(self).raw_mode_active() && !old(self).alt_screen_active() ==> *final(self)
                == *old(self),
    {
        let ops = (self.raw_active, self.alt_active);
        self.raw_active = false;
        self.alt_active = false;
        ops
    }
}

/// The teardown invariant: when the runtime ends, however it ends, one
/// teardown releases both terminal modes, and a repeated teardown finds
/// nothing held and performs no further device operation: the modes are
/// released exactly once.
pub proof fn lemma_teardown_once(t0: Tui, t1: Tui, t2: Tui)
    requires
        Tui::teardown_rel(t0, t1),
        Tui::teardown_rel(t1, t2),
    ensures
        !t1.raw_mode_active(),
        !t1.alt_screen_active(),
        !t2.raw_mode_active(),
        !t2.alt_screen_active(),
{
}

/// The bookkeeping of the effect loop: how many scheduled units of work
/// have not yet completed, and whether the channel feeding the loop has
/// closed. The loop exits exactly when its input channel has closed and all
/// pending work has drained.
pub struct EffectScheduler {
    pending: u64,
    closed: bool,
}

impl EffectScheduler {
    /// How many units of work are pending.
    pub closed spec fn pending_count(self) -> int {
        self.pending as int
    }

    /// Whether the input channel has closed.
    pub closed spec fn input_closed(self) -> bool {
        self.closed
    }

    /// Whether the loop must exit: the input channel has closed and no work
    /// is pending.
    pub open spec fn should_exit(self) -> bool {
        self.input_closed() && self.pending_count() == 0
    }

    /// A fresh scheduler: nothing pending, input open.
    pub fn new() -> (s: EffectScheduler)
        ensures
            s.pending_count() == 0,
            !s.input_closed(),
    {
        EffectScheduler { pending: 0, closed: false }
    }

    /// A new unit of work arrived and was added to the collection.
    pub fn on_new(&mut self) -> (r: Result<(), Error>)
        ensures
            match r {
                Ok(()) => {
                    &&& final(self).pending_count() == old(self).pending_count() + 1
                    &&& final(self).input_closed() == old(self).input_closed()
                },
                Err(e) => {
                    &&& *final(self) == *old(self)
                    &&& e == Error::StoreDesync
                    &&& old(self).pending_count() == u64::MAX
                },
            },
            (r is Ok) == (old(self).pending_count() < u64::MAX),
    {
        if self.pending == u64::MAX {
            return Err(Error::StoreDesync);
        }
        self.pending = self.pending + 1;
        Ok(())
    }

    /// One unit of work ran to completion.
    pub fn on_complete(&mut self) -> (r: Result<(), Error>)
        ensures
            match r {
                Ok(()) => {
                    &&& final(self).pending_count() == old(self).pending_count() - 1
                    &&& final(self).input_closed() == old(self).input_closed()
                },
                Err(e) => {
                    &&& *final(self) == *old(self)
                    &&& e == Error::StoreDesync
                    &&& old(self).pending_count() == 0
                },
            },
            (r is Ok) == (old(self).pending_count() > 0),
    {
        if self.pending == 0 {
            return Err(Error::StoreDesync);
        }
        self.pending = self.pending - 1;
        Ok(())
    }

    /// The input channel closed: no further work will arrive.
    pub fn on_closed(&mut self)
        ensures
            final(self).input_closed(),
            final(self).pending_count() == old(self).pending_count(),
    {
        self.closed = true;
    }

    /// Whether the loop must exit now.
    pub fn must_exit(&self) -> (r: bool)
        ensures
            r == self.should_exit(),
    {
        self.closed && self.pending == 0
    }
}

} // verus!
