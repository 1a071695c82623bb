//! Per-context ordered slots of reusable hook state.
//!
//! The Nth call to the state hook within a context, across all renders,
//! addresses the Nth slot; a slot is created on its first visit and persists
//! across renders. Revisiting a slot with a different value shape is an
//! unrecoverable programming error. A snapshot of all slots is taken when a
//! render completes; a setter triggers a redraw only when the new value
//! differs from the value the slot held at the last completed render.

use vstd::prelude::*;

use crate::error::Error;
use crate::value::{Value, ValueKind, ValueV};

verus! {

/// The views of a sequence of stored values.
pub open spec fn views_of(s: Seq<Value>) -> Seq<ValueV> {
    s.map_values(|v: Value| v@)
}

/// Whether replacing slot `slot` with value `v` warrants a redraw: it
/// does unless a render has completed and the slot existed then and held a
/// value equal to `v`.
pub open spec fn set_redraws(pre: StateStore, slot: int, v: ValueV) -> bool {
    match pre.drawn_slots() {
        None => true,
        Some(d) => !(0 <= slot < d.len() && d[slot] == v),
    }
}

/// A handle to one state slot of one context, handed out by the state hook.
/// Calling the runtime's setter entry point with it replaces the slot value.
#[derive(Debug, PartialEq, Eq, Structural, Clone, Copy)]
pub struct StateSetter {
    /// The index of the slot this setter addresses.
    pub slot: usize,
}

/// Ordered slots of hook state for one context.
pub struct StateStore {
    index: usize,
    state: Vec<Value>,
    last_drawn_state: Option<Vec<Value>>,
}

impl StateStore {
    /// The values currently stored, one per slot, abstractly.
    pub closed spec fn slots(self) -> Seq<ValueV> {
        views_of(self.state@)
    }

    /// The hook cursor: which slot the next state-hook call addresses.
    pub closed spec fn cursor(self) -> int {
        self.index as int
    }

    /// The slot values snapshotted at the last completed render, if any
    /// render has completed.
    pub closed spec fn drawn_slots(self) -> Option<Seq<ValueV>> {
        match self.last_drawn_state {
            Some(v) => Some(views_of(v@)),
            None => None,
        }
    }

    /// An empty store: no slots, cursor at zero, nothing drawn yet.
    pub fn new() -> (s: StateStore)
        ensures
            s.cursor() == 0,
            s.slots() == Seq::<ValueV>::empty(),
            s.drawn_slots() is None,
    {
        let s = StateStore { index: 0, state: Vec::new(), last_drawn_state: None };
        proof {
            assert(s.slots() =~= Seq::<ValueV>::empty());
        }
        s
    }

    /// Rewind the hook cursor at the start of a render pass; the stored
    /// values and the last-drawn snapshot are untouched.
    pub fn reset_index(&mut self)
        ensures
            final(self).cursor() == 0,
            final(self).slots() == old(self).slots(),
            final(self).drawn_slots() == old(self).drawn_slots(),
    {
        self.index = 0;
    }

    /// Record that a render pass completed: snapshot the current slot
    /// values as the last-drawn state.
    pub fn drawn(&mut self)
        ensures
            final(self).slots() == old(self).slots(),
            final(self).cursor() == old(self).cursor(),
            final(self).drawn_slots() == Some(old(self).slots()),
    {
        let snap = clone_values(&self.state);
        self.last_drawn_state = Some(snap);
    }

    /// The state hook. Addresses the slot under the cursor and advances the
    /// cursor. On the slot's first visit ever the initial-value factory is
    /// invoked and its result stored; on a revisit the factory is not
    /// invoked and the stored value is returned. The factory must produce a
    /// value of the declared shape, and a revisited slot must hold the
    /// declared shape; a violation is reported and leaves the store
    /// unchanged.
    pub fn use_state<F: FnOnce() -> Value>(&mut self, kind: ValueKind, initial: F) -> (r: Result<
        (Value, StateSetter),
        Error,
    >)
        requires
            call_requires(initial, ()),
        ensures
            match r {
                Ok((v, setter)) => {
                    &&& setter.slot == old(self).cursor()
                    &&& final(self).cursor() == old(self).cursor() + 1
                    &&& final(self).drawn_slots() == old(self).drawn_slots()
                    &&& v@.kind() == kind
                    &&& if old(self).cursor() < old(self).slots().len() {
                        &&& final(self).slots() == old(self).slots()
                        &&& v@ == old(self).slots()[old(self).cursor()]
                    } else {
                        &&& old(self).cursor() == old(self).slots().len()
                        &&& final(self).slots() == old(self).slots().push(v@)
                        &&& exists|nv: Value| call_ensures(initial, (), nv) && nv@ == v@
                    }
                },
                Err(e) => {
                    &&& *final(self) == *old(self)
                    &&& if old(self).cursor() > old(self).slots().len() {
                        e == Error::StoreDesync
                    } else {
                        &&& e == Error::StateTypeMismatch
                        &&& old(self).cursor() < old(self).slots().len() ==> old(self).slots()[
                            old(self).cursor()].kind() != kind
                        &&& old(self).cursor() == old(self).slots().len() ==> exists|nv: Value|
                            call_ensures(initial, (), nv) && nv@.kind() != kind
                    }
                },
            },
            old(self).cursor() < old(self).slots().len() && old(self).slots()[old(self).cursor()].kind() == kind ==> r is Ok,
    {
        let i = self.index;
        if i > self.state.len() {
            return Err(Error::StoreDesync);
        }
        if i < self.state.len() {
            let stored_kind = self.state[i].kind();
            if stored_kind == kind {
                let v = self.state[i].clone();
                proof {
                    assert(old(self).slots()[i as int] == old(self).state@[i as int]@);
                }
                self.index = i + 1;
                Ok((v, StateSetter { slot: i }))
            } else {
                Err(Error::StateTypeMismatch)
            }
        } else {
            let v = initial();
            if v.kind() == kind {
                let ret = v.clone();
                self.state.push(v);
                let n = self.state.len();
                self.index = n;
                proof {
                    assert(self.slots() =~= old(self).slots().push(ret@));
                }
                Ok((ret, StateSetter { slot: i }))
            } else {
                Err(Error::StateTypeMismatch)
            }
        }
    }

    /// Replace the value of one slot on behalf of a setter. Returns whether
    /// a redraw is warranted: it is exactly when no render has completed
    /// yet, or the slot did not exist at the last completed render, or the
    /// new value differs from the value the slot held then. The new value
    /// must match the slot's current shape.
    pub fn set_slot(&mut self, slot: usize, value: Value) -> (r: Result<bool, Error>)
        ensures
            match r {
                Ok(redraw) => {
                    &&& slot < old(self).slots().len()
                    &&& value@.kind() == old(self).slots()[slot as int].kind()
                    &&& final(self).slots() == old(self).slots().update(slot as int, value@)
                    &&& final(self).cursor() == old(self).cursor()
                    &&& final(self).drawn_slots() == old(self).drawn_slots()
                    &&& redraw == set_redraws(*old(self), slot as int, value@)
                },
                Err(e) => {
                    &&& *final(self) == *old(self)
                    &&& if slot >= old(self).slots().len() {
                        e == Error::StoreDesync
                    } else {
                        &&& e == Error::StateTypeMismatch
                        &&& value@.kind() != old(self).slots()[slot as int].kind()
                    }
                },
            },
            (r is Ok) == (slot < old(self).slots().len() && value@.kind() == old(self).slots()[slot as int].kind()),
    {
        if slot >= self.state.len() {
            return Err(Error::StoreDesync);
        }
        if self.state[slot].kind() != value.kind() {
            return Err(Error::StateTypeMismatch);
        }
        let redraw = match &self.last_drawn_state {
            None => true,
            Some(d) => {
                if slot < d.len() {
                    !crate::value::value_eq(&d[slot], &value)
                } else {
                    true
                }
            },
        };
        let elem = &mut self.state[slot];
        *elem = value;
        proof {
            assert(self.slots() =~= old(self).slots().update(slot as int, value@));
        }
        Ok(redraw)
    }
}

/// Clone a sequence of values, preserving each view.
fn clone_values(v: &Vec<Value>) -> (r: Vec<Value>)
    ensures
        views_of(r@) == views_of(v@),
{
    let mut r: Vec<Value> = Vec::new();
    let mut i: usize = 0;
    while i < v.len()
        invariant
            i <= v@.len(),
            r@.len() == i,
            forall|j: int| 0 <= j < i ==> #[trigger] r@[j]@ == v@[j]@,
        decreases v@.len() - i,
    {
        r.push(v[i].clone());
        i += 1;
    }
    proof {
        assert(views_of(r@) =~= views_of(v@));
    }
    r
}

} // verus!
