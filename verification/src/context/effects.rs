//! Per-context ordered slots of last-seen effect arguments.
//!
//! The Nth effect-hook call within a render addresses the Nth slot. An
//! effect fires — its deferred unit of work must be built and scheduled —
//! exactly on the slot's first visit ever and whenever the arguments differ
//! from those recorded on the previous visit. Unchanged arguments are a
//! no-op. Revisiting a slot with arguments of a different shape is an
//! unrecoverable programming error.

use vstd::prelude::*;

use crate::context::state::views_of;
use crate::error::Error;
use crate::value::{Value, ValueV};

verus! {

/// Ordered slots of last-seen effect arguments for one context.
pub struct EffectStore {
    index: usize,
    last_args: Vec<Value>,
}

impl EffectStore {
    /// The recorded arguments, one per slot, abstractly.
    pub closed spec fn args(self) -> Seq<ValueV> {
        views_of(self.last_args@)
    }

    /// The hook cursor: which slot the next effect-hook call addresses.
    pub closed spec fn cursor(self) -> int {
        self.index as int
    }

    /// Whether an effect-hook call fires, given the recorded arguments, the
    /// cursor it addresses, and the arguments it was called with: on a first
    /// visit always, on a revisit exactly when the arguments changed.
    pub open spec fn fires(args: Seq<ValueV>, cursor: int, new_args: ValueV) -> bool {
        cursor >= args.len() || args[cursor] != new_args
    }

    /// An empty store: no slots, cursor at zero.
    pub fn new() -> (s: EffectStore)
        ensures
            s.cursor() == 0,
            s.args() == Seq::<ValueV>::empty(),
    {
        let s = EffectStore { index: 0, last_args: Vec::new() };
        proof {
            assert(s.args() =~= Seq::<ValueV>::empty());
        }
        s
    }

    /// Rewind the hook cursor at the start of a render pass; the recorded
    /// arguments are untouched.
    pub fn reset_index(&mut self)
        ensures
            final(self).cursor() == 0,
            final(self).args() == old(self).args(),
    {
        self.index = 0;
    }

    /// The effect hook. Addresses the slot under the cursor and advances
    /// the cursor. Returns whether the effect fires; when it does, the new
    /// arguments are recorded at the slot. A revisit with arguments of a
    /// different shape is reported and leaves the store unchanged.
    pub fn use_effect(&mut self, args: Value) -> (r: Result<bool, Error>)
        ensures
            match r {
                Ok(fired) => {
                    &&& final(self).cursor() == old(self).cursor() + 1
                    &&& fired == EffectStore::fires(old(self).args(), old(self).cursor(), args@)
                    &&& if old(self).cursor() < old(self).args().len() {
                        &&& args@.kind() == old(self).args()[old(self).cursor()].kind()
                        &&& final(self).args() == if fired {
                            old(self).args().update(old(self).cursor(), args@)
                        } else {
                            old(self).args()
                        }
                    } else {
                        &&& old(self).cursor() == old(self).args().len()
                        &&& final(self).args() == old(self).args().push(args@)
                    }
                },
                Err(e) => {
                    &&& *final(self) == *old(self)
                    &&& if old(self).cursor() > old(self).args().len() {
                        e == Error::StoreDesync
                    } else {
                        &&& e == Error::EffectTypeMismatch
                        &&& old(self).cursor() < old(self).args().len()
                        &&& args@.kind() != old(self).args()[old(self).cursor()].kind()
                    }
                },
            },
            (r is Ok) == (old(self).cursor() <= old(self).args().len() && !(old(self).cursor()
                < old(self).args().len() && args@.kind() != old(self).args()[old(self).cursor()].kind())),
    {
        let i = self.index;
        if i > self.last_args.len() {
            return Err(Error::StoreDesync);
        }
        if i < self.last_args.len() {
            if self.last_args[i].kind() != args.kind() {
                return Err(Error::EffectTypeMismatch);
            }
            let changed = !crate::value::value_eq(&self.last_args[i], &args);
            proof {
                assert(old(self).args()[i as int] == old(self).last_args@[i as int]@);
            }
            self.index = i + 1;
            if changed {
                let elem = &mut self.last_args[i];
                *elem = args;
                proof {
                    assert(self.args() =~= old(self).args().update(i as int, self.last_args@[
                        i as int]@));
                }
                Ok(true)
            } else {
                Ok(false)
            }
        } else {
            self.last_args.push(args);
            let n = self.last_args.len();
            self.index = n;
            proof {
                assert(self.args() =~= old(self).args().push(self.last_args@[i as int]@));
            }
            Ok(true)
        }
    }
}

/// The effect re-fire law: across consecutive renders whose effect-hook
/// call presents arguments equal to those already recorded at the slot, the
/// effect fires on no render after the one that recorded them, and the
/// recorded arguments never change; so with constant arguments an effect
/// fires exactly once, on the first render.
pub proof fn lemma_effect_refire(args: Seq<ValueV>, cursor: int, new_args: ValueV)
    requires
        0 <= cursor < args.len(),
        args[cursor] == new_args,
    ensures
        !EffectStore::fires(args, cursor, new_args),
{
}

/// The effect first-visit law: an effect-hook call addressing a slot never
/// visited before always fires.
pub proof fn lemma_effect_first_fire(args: Seq<ValueV>, cursor: int, new_args: ValueV)
    requires
        cursor >= args.len(),
    ensures
        EffectStore::fires(args, cursor, new_args),
{
}

} // verus!
