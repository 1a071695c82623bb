//! The keyed table of child contexts.
//!
//! A child is identified by a stable call-site token; identifier equality,
//! not position, determines reuse across renders. Each render pass first
//! clears the liveness marks, then touches the identifiers it references —
//! reusing the stored child context when the identifier is present with the
//! same props shape, creating a fresh one otherwise — and finally evicts
//! every stored child whose identifier was not touched. Reusing an
//! identifier with a different props shape is an unrecoverable programming
//! error.

use vstd::prelude::*;

use crate::context::Context;
use crate::error::Error;
use crate::value::Value;
use crate::value::ValueKind;
use crate::Component;

verus! {

/// A stable token distinguishing sibling child instances across renders:
/// the source position of the call site that adds the child.
#[derive(Debug, PartialEq, Eq, Structural, Clone, Copy, Hash)]
pub struct ChildIdentifier {
    pub line: u32,
    pub column: u32,
}

/// One stored child: its identifier, the shape of its props — a child must
/// keep one props shape for its whole lifetime — and its context.
pub struct ChildEntry {
    pub id: ChildIdentifier,
    pub kind: ValueKind,
    pub context: Context,
}

/// Whether some entry of `s` carries identifier `id`.
pub open spec fn has_id(s: Seq<ChildEntry>, id: ChildIdentifier) -> bool {
    exists|i: int| 0 <= i < s.len() && s[i].id == id
}

/// The index of the entry of `s` carrying `id`; meaningful when the
/// identifiers of `s` are unique and `id` is present.
pub open spec fn idx_of(s: Seq<ChildEntry>, id: ChildIdentifier) -> int {
    choose|i: int| 0 <= i < s.len() && s[i].id == id
}

/// The eviction predicate of a render pass: an entry survives when its
/// identifier was touched.
pub open spec fn live_pred(ids: Seq<ChildIdentifier>) -> spec_fn(ChildEntry) -> bool {
    |e: ChildEntry| ids.contains(e.id)
}

/// The keyed table of child contexts of one context, with the liveness
/// marks of the current render pass.
pub struct ChildStore {
    entries: Vec<ChildEntry>,
    live: Vec<ChildIdentifier>,
}

impl ChildStore {
    /// The stored children.
    pub closed spec fn entries(self) -> Seq<ChildEntry> {
        self.entries@
    }

    /// The identifiers touched so far in the current render pass.
    pub closed spec fn live_ids(self) -> Seq<ChildIdentifier> {
        self.live@
    }

    /// Well-formedness: no two entries share an identifier.
    pub open spec fn wf(self) -> bool {
        forall|i: int, j: int|
            0 <= i < j < self.entries().len() ==> self.entries()[i].id != self.entries()[j].id
    }

    /// An empty table.
    pub fn new() -> (s: ChildStore)
        ensures
            s.entries() == Seq::<ChildEntry>::empty(),
            s.live_ids() == Seq::<ChildIdentifier>::empty(),
            s.wf(),
    {
        ChildStore { entries: Vec::new(), live: Vec::new() }
    }

    /// Clear the liveness marks at the start of a render pass; the stored
    /// children are untouched.
    pub fn reset_index(&mut self)
        ensures
            final(self).entries() == old(self).entries(),
            final(self).live_ids() == Seq::<ChildIdentifier>::empty(),
    {
        self.live.clear();
    }

    /// Touch `id` and return the index of its child entry: the stored one —
    /// with the child's props replaced, which follows the child's own
    /// props-update transition — when `id` is present with the same props
    /// shape; a freshly created child when `id` is absent. Reuse with a
    /// different props shape is reported and leaves the table unchanged.
    pub fn update_or_insert(&mut self, id: ChildIdentifier, props: Value) -> (r: Result<
        usize,
        Error,
    >)
        requires
            old(self).wf(),
        ensures
            match r {
                Ok(i) => {
                    &&& final(self).wf()
                    &&& final(self).live_ids() == old(self).live_ids().push(id)
                    &&& 0 <= i < final(self).entries().len()
                    &&& final(self).entries()[i as int].id == id
                    &&& final(self).entries()[i as int].kind == props@.kind()
                    &&& if has_id(old(self).entries(), id) {
                        &&& i == idx_of(old(self).entries(), id)
                        &&& old(self).entries()[i as int].kind == props@.kind()
                        &&& final(self).entries().len() == old(self).entries().len()
                        &&& forall|k: int|
                            0 <= k < old(self).entries().len() && k != i ==> final(self).entries()[k] == old(self).entries()[k]
                        &&& Context::update_props_rel(
                            old(self).entries()[i as int].context,
                            props@,
                            final(self).entries()[i as int].context,
                        )
                    } else {
                        &&& i == old(self).entries().len()
                        &&& final(self).entries().len() == old(self).entries().len() + 1
                        &&& forall|k: int|
                            0 <= k < old(self).entries().len() ==> final(self).entries()[k]
                                == old(self).entries()[k]
                        &&& Context::fresh(final(self).entries()[i as int].context, props@)
                    }
                },
                Err(e) => {
                    &&& *final(self) == *old(self)
                    &&& e == Error::ChildTypeMismatch
                    &&& has_id(old(self).entries(), id)
                    &&& old(self).entries()[idx_of(old(self).entries(), id)].kind != props@.kind()
                },
            },
            (r is Ok) == !(has_id(old(self).entries(), id) && old(self).entries()[idx_of(
                old(self).entries(),
                id,
            )].kind != props@.kind()),
    {
        let kind = props.kind();
        let n = self.entries.len();
        let mut i: usize = 0;
        let mut found: bool = false;
        while i < n && !found
            invariant
                n == self.entries@.len(),
                i <= n,
                !found ==> forall|k: int| 0 <= k < i ==> self.entries@[k].id != id,
                found ==> i < n && self.entries@[i as int].id == id,
            decreases n - i + if found {
                0int
            } else {
                1int
            },
        {
            if self.entries[i].id == id {
                found = true;
            } else {
                i += 1;
            }
        }
        if found {
            proof {
                assert(has_id(self.entries@, id));
                assert forall|k: int|
                    0 <= k < self.entries@.len() && self.entries@[k].id == id implies k
                    == i as int by {
                    if k < i as int {
                        assert(self.entries@[k].id != id);
                    }
                }
                assert(idx_of(self.entries@, id) == i as int);
            }
            if self.entries[i].kind != kind {
                return Err(Error::ChildTypeMismatch);
            }
            self.live.push(id);
            let e = &mut self.entries[i];
            e.context.update_props(props);
            Ok(i)
        } else {
            proof {
                assert(!has_id(self.entries@, id));
            }
            self.live.push(id);
            let ctx = Context::new(props);
            self.entries.push(ChildEntry { id, kind, context: ctx });
            Ok(n)
        }
    }

    /// Render the child at entry `i` in place with the given component, and
    /// hand back the drawable it produced together with the events the
    /// child accumulated, which the parent takes over.
    pub fn render_child<C: Component>(&mut self, i: usize, component: &C) -> (r: (
        C::Output,
        Vec<crate::tui::Event>,
    ))
        requires
            i < old(self).entries().len(),
        ensures
            final(self).live_ids() == old(self).live_ids(),
            final(self).entries().len() == old(self).entries().len(),
            forall|k: int|
                0 <= k < old(self).entries().len() && k != i ==> final(self).entries()[k] == old(self).entries()[k],
            final(self).entries()[i as int].id == old(self).entries()[i as int].id,
            final(self).entries()[i as int].kind == old(self).entries()[i as int].kind,
            Context::post_draw(final(self).entries()[i as int].context),
            final(self).entries()[i as int].context.events() == Seq::<crate::tui::Event>::empty(),
            old(self).wf() ==> final(self).wf(),
    {
        let e = &mut self.entries[i];
        let out = e.context.draw(component);
        let evs = e.context.take_events();
        (out, evs)
    }

    /// End of a render pass: evict every stored child whose identifier was
    /// not touched since the marks were cleared. What remains, in order,
    /// are exactly the entries whose identifier is live.
    pub fn drawn(&mut self)
        ensures
            final(self).entries() == old(self).entries().filter(live_pred(old(self).live_ids())),
            final(self).live_ids() == old(self).live_ids(),
    {
        let ghost orig: Seq<ChildEntry> = self.entries@;
        let ghost pred = live_pred(old(self).live_ids());
        let mut i: usize = 0;
        let ghost mut j: int = 0;
        while i < self.entries.len()
            invariant
                0 <= i as int <= self.entries@.len(),
                0 <= j <= orig.len(),
                self.live@ == old(self).live@,
                pred == live_pred(old(self).live_ids()),
                self.entries@.subrange(0, i as int) =~= orig.subrange(0, j).filter(pred),
                self.entries@.subrange(i as int, self.entries@.len() as int) =~= orig.subrange(
                    j,
                    orig.len() as int,
                ),
            decreases orig.len() - j,
        {
            proof {
                let sfx_new = self.entries@.subrange(i as int, self.entries@.len() as int);
                let sfx_old = orig.subrange(j, orig.len() as int);
                assert(sfx_new.len() == sfx_old.len());
                assert(j < orig.len());
                assert(sfx_new[0] == self.entries@[i as int]);
                assert(sfx_old[0] == orig[j]);
                assert(self.entries@[i as int] == orig[j]);
                lemma_filter_extend(orig, pred, j);
            }
            let keep = contains_id(&self.live, &self.entries[i].id);
            if keep {
                i += 1;
                proof {
                    j = j + 1;
                    assert(self.entries@.subrange(0, i as int) =~= self.entries@.subrange(
                        0,
                        (i - 1) as int,
                    ).push(orig[j - 1]));
                    assert forall|m: int| 0 <= m < self.entries@.len() - i as int implies
                        self.entries@.subrange(i as int, self.entries@.len() as int)[m]
                        == orig.subrange(j, orig.len() as int)[m] by {
                        assert(self.entries@.subrange(
                            (i - 1) as int,
                            self.entries@.len() as int,
                        )[m + 1] == self.entries@[i as int + m]);
                        assert(orig.subrange(j - 1, orig.len() as int)[m + 1] == orig[j + m]);
                    }
                    assert(self.entries@.subrange(i as int, self.entries@.len() as int)
                        =~= orig.subrange(j, orig.len() as int));
                }
            } else {
                let ghost before = self.entries@;
                self.entries.remove(i);
                proof {
                    j = j + 1;
                    assert forall|m: int| 0 <= m < i as int implies self.entries@[m]
                        == before[m] by {}
                    assert(self.entries@.subrange(0, i as int) =~= before.subrange(0, i as int));
                    assert(self.entries@.subrange(0, i as int) =~= orig.subrange(0, j).filter(
                        pred,
                    ));
                    assert forall|m: int| 0 <= m < self.entries@.len() - i as int implies
                        self.entries@.subrange(i as int, self.entries@.len() as int)[m]
                        == orig.subrange(j, orig.len() as int)[m] by {
                        assert(self.entries@[i as int + m] == before[i as int + m + 1]);
                        assert(before.subrange(i as int, before.len() as int)[m + 1] == before[
                            i as int + m + 1]);
                        assert(orig.subrange(j - 1, orig.len() as int)[m + 1] == orig[j + m]);
                    }
                    assert(self.entries@.subrange(i as int, self.entries@.len() as int)
                        =~= orig.subrange(j, orig.len() as int));
                }
            }
        }
        proof {
            assert(j == orig.len());
            assert(orig.subrange(0, j) =~= orig);
            assert(self.entries@ =~= self.entries@.subrange(0, i as int));
        }
    }
}

/// Filtering a prefix extended by one element appends that element exactly
/// when it satisfies the predicate.
proof fn lemma_filter_extend(s: Seq<ChildEntry>, pred: spec_fn(ChildEntry) -> bool, j: int)
    requires
        0 <= j < s.len(),
    ensures
        s.subrange(0, j + 1).filter(pred) == if pred(s[j]) {
            s.subrange(0, j).filter(pred).push(s[j])
        } else {
            s.subrange(0, j).filter(pred)
        },
{
    let ext = s.subrange(0, j + 1);
    assert(ext.drop_last() =~= s.subrange(0, j));
    assert(ext.last() == s[j]);
    reveal_with_fuel(Seq::filter, 2);
}

/// The child pruning law: a render pass that does not touch an identifier
/// evicts its child — after the pass the identifier is no longer present —
/// while every touched identifier that was present survives.
pub proof fn lemma_child_pruning(pre: ChildStore, post: ChildStore, id: ChildIdentifier)
    requires
        post.entries() == pre.entries().filter(live_pred(pre.live_ids())),
    ensures
        !pre.live_ids().contains(id) ==> !has_id(post.entries(), id),
        pre.live_ids().contains(id) && has_id(pre.entries(), id) ==> has_id(post.entries(), id),
{
    let pred = live_pred(pre.live_ids());
    pre.entries().filter_lemma(pred);
    if !pre.live_ids().contains(id) {
        assert forall|i: int| 0 <= i < post.entries().len() implies post.entries()[i].id
            != id by {
            assert(pred(post.entries()[i]));
        }
    }
    if pre.live_ids().contains(id) && has_id(pre.entries(), id) {
        let i = choose|i: int| 0 <= i < pre.entries().len() && pre.entries()[i].id == id;
        assert(pred(pre.entries()[i]));
        assert(post.entries().contains(pre.entries()[i]));
        let k = choose|k: int|
            0 <= k < post.entries().len() && post.entries()[k] == pre.entries()[i];
        assert(post.entries()[k].id == id);
    }
}

/// Decide whether `id` occurs in `live`.
fn contains_id(live: &Vec<ChildIdentifier>, id: &ChildIdentifier) -> (r: bool)
    ensures
        r == live@.contains(*id),
{
    let mut i: usize = 0;
    while i < live.len()
        invariant
            i <= live@.len(),
            forall|k: int| 0 <= k < i ==> live@[k] != *id,
        decreases live@.len() - i,
    {
        if live[i] == *id {
            return true;
        }
        i += 1;
    }
    false
}

} // verus!
