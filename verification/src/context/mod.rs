//! The per-component-instance context: hook stores, the redraw diff, and
//! the render-pass orchestration.
//!
//! A context owns one component instance's props, its assigned drawing
//! region, and three hook stores: state slots, last-seen effect arguments,
//! and keyed child contexts. It decides whether a change warrants a redraw
//! by comparing against the snapshot taken at the last completed render,
//! and it accumulates the runtime events it emits — redraw requests and
//! effect announcements — in an outbox that the runtime drains.

pub mod children;
pub mod effects;
pub mod state;

use vstd::prelude::*;

use crate::error::Error;
use crate::tui::Event;
use crate::value::{Value, ValueKind, ValueV};
use crate::components::Drawable;
use crate::Component;
use children::{ChildEntry, ChildIdentifier, ChildStore};
use effects::EffectStore;
use state::{StateSetter, StateStore};

verus! {

/// The props of a context together with its assigned drawing region: the
/// unit that is snapshotted when a render completes.
struct PropsInternal {
    props: Value,
    x_start: u16,
    x_end: u16,
    y_start: u16,
    y_end: u16,
}

/// The persistent per-component-instance object holding hook state and
/// orchestrating its render pass.
pub struct Context {
    props: PropsInternal,
    last_drawn_props: Option<PropsInternal>,
    state: StateStore,
    effects: EffectStore,
    children: ChildStore,
    events: Vec<Event>,
}

impl Context {
    /// The current props, abstractly.
    pub closed spec fn props_view(self) -> ValueV {
        self.props.props@
    }

    /// The assigned region: the x range then the y range, half-open.
    pub closed spec fn region(self) -> (u16, u16, u16, u16) {
        (self.props.x_start, self.props.x_end, self.props.y_start, self.props.y_end)
    }

    /// The props snapshotted at the last completed render, if any.
    pub closed spec fn drawn_props(self) -> Option<ValueV> {
        match self.last_drawn_props {
            Some(s) => Some(s.props@),
            None => None,
        }
    }

    /// The region snapshotted at the last completed render, if any.
    pub closed spec fn drawn_region(self) -> Option<(u16, u16, u16, u16)> {
        match self.last_drawn_props {
            Some(s) => Some((s.x_start, s.x_end, s.y_start, s.y_end)),
            None => None,
        }
    }

    /// The state store.
    pub closed spec fn state_store(self) -> StateStore {
        self.state
    }

    /// The effect store.
    pub closed spec fn effect_store(self) -> EffectStore {
        self.effects
    }

    /// The child table.
    pub closed spec fn child_store(self) -> ChildStore {
        self.children
    }

    /// The events emitted and not yet drained by the runtime.
    pub closed spec fn events(self) -> Seq<Event> {
        self.events@
    }

    /// Whether replacing the props with `p` warrants a redraw: it does
    /// unless a render has completed and drew exactly `p`.
    pub open spec fn props_changed_to(self, p: ValueV) -> bool {
        self.drawn_props() != Some(p)
    }

    /// Whether assigning region `r` warrants a redraw: it does unless a
    /// render has completed and drew exactly that region.
    pub open spec fn size_changed_to(self, r: (u16, u16, u16, u16)) -> bool {
        self.drawn_region() != Some(r)
    }

    /// A freshly created context over props `p`: empty region, no
    /// completed render, empty stores, no events.
    pub open spec fn fresh(c: Context, p: ValueV) -> bool {
        &&& c.props_view() == p
        &&& c.region() == (0u16, 0u16, 0u16, 0u16)
        &&& c.drawn_props() is None
        &&& c.drawn_region() is None
        &&& c.state_store().cursor() == 0
        &&& c.state_store().slots() == Seq::<ValueV>::empty()
        &&& c.state_store().drawn_slots() is None
        &&& c.effect_store().cursor() == 0
        &&& c.effect_store().args() == Seq::<ValueV>::empty()
        &&& c.child_store().entries() == Seq::<ChildEntry>::empty()
        &&& c.child_store().live_ids() == Seq::<ChildIdentifier>::empty()
        &&& c.child_store().wf()
        &&& c.events() == Seq::<Event>::empty()
    }

    /// The props-update transition: the props are replaced, a redraw event
    /// is emitted exactly when the new props differ from the last-drawn
    /// snapshot, and everything else is untouched.
    pub open spec fn update_props_rel(pre: Context, p: ValueV, post: Context) -> bool {
        &&& post.props_view() == p
        &&& post.region() == pre.region()
        &&& post.drawn_props() == pre.drawn_props()
        &&& post.drawn_region() == pre.drawn_region()
        &&& post.state_store() == pre.state_store()
        &&& post.effect_store() == pre.effect_store()
        &&& post.child_store() == pre.child_store()
        &&& post.events() == if pre.props_changed_to(p) {
            pre.events().push(Event::Redraw)
        } else {
            pre.events()
        }
    }

    /// The size-update transition: the region is replaced, a redraw event
    /// is emitted exactly when the new region differs from the last-drawn
    /// snapshot, and everything else is untouched.
    pub open spec fn update_size_rel(pre: Context, r: (u16, u16, u16, u16), post: Context) -> bool {
        &&& post.region() == r
        &&& post.props_view() == pre.props_view()
        &&& post.drawn_props() == pre.drawn_props()
        &&& post.drawn_region() == pre.drawn_region()
        &&& post.state_store() == pre.state_store()
        &&& post.effect_store() == pre.effect_store()
        &&& post.child_store() == pre.child_store()
        &&& post.events() == if pre.size_changed_to(r) {
            pre.events().push(Event::Redraw)
        } else {
            pre.events()
        }
    }

    /// What holds of a context right after a render pass completed: the
    /// props, region and state slots are snapshotted as last-drawn, and
    /// every stored child was touched by the pass.
    pub open spec fn post_draw(c: Context) -> bool {
        &&& c.drawn_props() == Some(c.props_view())
        &&& c.drawn_region() == Some(c.region())
        &&& c.state_store().drawn_slots() == Some(c.state_store().slots())
        &&& forall|k: int|
            0 <= k < c.child_store().entries().len() ==> c.child_store().live_ids().contains(
                #[trigger] c.child_store().entries()[k].id,
            )
    }

    /// Create a context with the given initial props.
    pub fn new(props: Value) -> (c: Context)
        ensures
            Context::fresh(c, props@),
    {
        Context {
            props: PropsInternal { props, x_start: 0, x_end: 0, y_start: 0, y_end: 0 },
            last_drawn_props: None,
            state: StateStore::new(),
            effects: EffectStore::new(),
            children: ChildStore::new(),
            events: Vec::new(),
        }
    }

    /// Replace the props externally. Emits a redraw event exactly when the
    /// new props differ from the props drawn by the last completed render.
    pub fn update_props(&mut self, new_props: Value)
        ensures
            Context::update_props_rel(*old(self), new_props@, *final(self)),
    {
        let changed = match &self.last_drawn_props {
            None => true,
            Some(s) => !crate::value::value_eq(&s.props, &new_props),
        };
        self.props.props = new_props;
        if changed {
            self.events.push(Event::Redraw);
        }
    }

    /// Assign the drawing region. Emits a redraw event exactly when it
    /// differs from the region drawn by the last completed render.
    pub fn update_size(&mut self, x_start: u16, x_end: u16, y_start: u16, y_end: u16)
        ensures
            Context::update_size_rel(
                *old(self),
                (x_start, x_end, y_start, y_end),
                *final(self),
            ),
    {
        let changed = match &self.last_drawn_props {
            None => true,
            Some(s) => !(s.x_start == x_start && s.x_end == x_end && s.y_start == y_start
                && s.y_end == y_end),
        };
        self.props.x_start = x_start;
        self.props.x_end = x_end;
        self.props.y_start = y_start;
        self.props.y_end = y_end;
        if changed {
            self.events.push(Event::Redraw);
        }
    }

    /// The state hook: the per-slot semantics of the state store, with
    /// everything else of the context untouched. Emits no event.
    pub fn use_state<F: FnOnce() -> Value>(&mut self, kind: ValueKind, initial: F) -> (r: Result<
        (Value, StateSetter),
        Error,
    >)
        requires
            call_requires(initial, ()),
        ensures
            final(self).props_view() == old(self).props_view(),
            final(self).region() == old(self).region(),
            final(self).drawn_props() == old(self).drawn_props(),
            final(self).drawn_region() == old(self).drawn_region(),
            final(self).effect_store() == old(self).effect_store(),
            final(self).child_store() == old(self).child_store(),
            final(self).events() == old(self).events(),
            match r {
                Ok((v, setter)) => {
                    &&& setter.slot == old(self).state_store().cursor()
                    &&& final(self).state_store().cursor() == old(self).state_store().cursor() + 1
                    &&& final(self).state_store().drawn_slots() == old(self).state_store().drawn_slots()
                    &&& v@.kind() == kind
                    &&& if old(self).state_store().cursor() < old(self).state_store().slots().len() {
                        &&& final(self).state_store().slots() == old(self).state_store().slots()
                        &&& v@ == old(self).state_store().slots()[old(self).state_store().cursor()]
                    } else {
                        &&& final(self).state_store().slots() == old(self).state_store().slots().push(v@)
                        &&& exists|nv: Value| call_ensures(initial, (), nv) && nv@ == v@
                    }
                },
                Err(_) => final(self).state_store() == old(self).state_store(),
            },
            old(self).state_store().cursor() < old(self).state_store().slots().len() && old(self).state_store().slots()[old(self).state_store().cursor()].kind() == kind ==> r is Ok,
    {
        self.state.use_state(kind, initial)
    }

    /// Call a state setter: replace the addressed slot's value. Emits one
    /// redraw event exactly when the new value differs from the value that
    /// slot held at the last completed render (or no render completed yet);
    /// a value equal to the last-drawn one emits nothing.
    pub fn set_state(&mut self, setter: &StateSetter, value: Value) -> (r: Result<(), Error>)
        ensures
            final(self).props_view() == old(self).props_view(),
            final(self).region() == old(self).region(),
            final(self).drawn_props() == old(self).drawn_props(),
            final(self).drawn_region() == old(self).drawn_region(),
            final(self).effect_store() == old(self).effect_store(),
            final(self).child_store() == old(self).child_store(),
            match r {
                Ok(()) => {
                    &&& setter.slot < old(self).state_store().slots().len()
                    &&& final(self).state_store().slots() == old(self).state_store().slots().update(
                        setter.slot as int,
                        value@,
                    )
                    &&& final(self).state_store().cursor() == old(self).state_store().cursor()
                    &&& final(self).state_store().drawn_slots() == old(self).state_store().drawn_slots()
                    &&& final(self).events() == if state::set_redraws(
                        old(self).state_store(),
                        setter.slot as int,
                        value@,
                    ) {
                        old(self).events().push(Event::Redraw)
                    } else {
                        old(self).events()
                    }
                },
                Err(e) => {
                    &&& *final(self) == *old(self)
                    &&& if setter.slot >= old(self).state_store().slots().len() {
                        e == Error::StoreDesync
                    } else {
                        &&& e == Error::StateTypeMismatch
                        &&& value@.kind() != old(self).state_store().slots()[setter.slot as int].kind()
                    }
                },
            },
            (r is Ok) == (setter.slot < old(self).state_store().slots().len() && value@.kind()
                == old(self).state_store().slots()[setter.slot as int].kind()),
    {
        match self.state.set_slot(setter.slot, value) {
            Ok(redraw) => {
                if redraw {
                    self.events.push(Event::Redraw);
                }
                Ok(())
            },
            Err(e) => Err(e),
        }
    }

    /// The effect hook: the per-slot semantics of the effect store. When
    /// the effect fires — first visit, or changed arguments — one
    /// new-effect event is emitted and the caller must build and hand over
    /// the deferred unit of work; otherwise nothing happens.
    pub fn use_effect(&mut self, args: Value) -> (r: Result<bool, Error>)
        ensures
            final(self).props_view() == old(self).props_view(),
            final(self).region() == old(self).region(),
            final(self).drawn_props() == old(self).drawn_props(),
            final(self).drawn_region() == old(self).drawn_region(),
            final(self).state_store() == old(self).state_store(),
            final(self).child_store() == old(self).child_store(),
            match r {
                Ok(fired) => {
                    &&& fired == EffectStore::fires(
                        old(self).effect_store().args(),
                        old(self).effect_store().cursor(),
                        args@,
                    )
                    &&& final(self).effect_store().cursor() == old(self).effect_store().cursor() + 1
                    &&& if old(self).effect_store().cursor() < old(self).effect_store().args().len() {
                        final(self).effect_store().args() == if fired {
                            old(self).effect_store().args().update(
                                old(self).effect_store().cursor(),
                                args@,
                            )
                        } else {
                            old(self).effect_store().args()
                        }
                    } else {
                        final(self).effect_store().args() == old(self).effect_store().args().push(args@)
                    }
                    &&& final(self).events() == if fired {
                        old(self).events().push(Event::NewEffect)
                    } else {
                        old(self).events()
                    }
                },
                Err(_) => *final(self) == *old(self),
            },
            (r is Ok) == (old(self).effect_store().cursor() <= old(self).effect_store().args().len() && !(old(self).effect_store().cursor() < old(self).effect_store().args().len() && args@.kind() != old(self).effect_store().args()[old(self).effect_store().cursor()].kind())),
    {
        match self.effects.use_effect(args) {
            Ok(fired) => {
                if fired {
                    self.events.push(Event::NewEffect);
                }
                Ok(fired)
            },
            Err(e) => Err(e),
        }
    }

    /// Add a child component under this context. The child context for the
    /// identifier is reused when present with the same props shape —
    /// keeping its hook state — or freshly created; it is marked live for
    /// this pass, its props are updated, and it is rendered immediately so
    /// its drawable can be composed into the caller's tree. The events the
    /// child emitted are taken over into this context's outbox.
    pub fn add_child<C: Component>(
        &mut self,
        id: ChildIdentifier,
        component: &C,
        props: Value,
    ) -> (r: Result<C::Output, Error>)
        requires
            old(self).child_store().wf(),
        ensures
            final(self).props_view() == old(self).props_view(),
            final(self).region() == old(self).region(),
            final(self).drawn_props() == old(self).drawn_props(),
            final(self).drawn_region() == old(self).drawn_region(),
            final(self).state_store() == old(self).state_store(),
            final(self).effect_store() == old(self).effect_store(),
            match r {
                Ok(_) => {
                    &&& final(self).child_store().wf()
                    &&& final(self).child_store().live_ids() == old(self).child_store().live_ids().push(id)
                    &&& children::has_id(final(self).child_store().entries(), id)
                    &&& old(self).events().is_prefix_of(final(self).events())
                    &&& final(self).child_store().entries()[children::idx_of(
                        final(self).child_store().entries(),
                        id,
                    )].kind == props@.kind()
                    &&& if children::has_id(old(self).child_store().entries(), id) {
                        &&& final(self).child_store().entries().len() == old(self).child_store().entries().len()
                        &&& forall|k: int|
                            0 <= k < old(self).child_store().entries().len() && k
                                != children::idx_of(old(self).child_store().entries(), id)
                                ==> final(self).child_store().entries()[k] == old(self).child_store().entries()[k]
                    } else {
                        final(self).child_store().entries().len() == old(self).child_store().entries().len() + 1
                    }
                },
                Err(e) => {
                    &&& *final(self) == *old(self)
                    &&& e == Error::ChildTypeMismatch
                    &&& children::has_id(old(self).child_store().entries(), id)
                    &&& old(self).child_store().entries()[children::idx_of(
                        old(self).child_store().entries(),
                        id,
                    )].kind != props@.kind()
                },
            },
            (r is Ok) == !(children::has_id(old(self).child_store().entries(), id) && old(self).child_store().entries()[children::idx_of(old(self).child_store().entries(), id)].kind
                != props@.kind()),
    {
        let i = match self.children.update_or_insert(id, props) {
            Ok(i) => i,
            Err(e) => {
                return Err(e);
            },
        };
        let (out, mut evs) = self.children.render_child(i, component);
        self.events.append(&mut evs);
        Ok(out)
    }

    /// Run a render pass without painting: rewind the three hook cursors,
    /// invoke the component's render function on the current props, then
    /// snapshot the just-used props, region and state slots as last-drawn
    /// and evict the children the pass did not touch. Returns the drawable
    /// the component produced.
    pub fn draw<C: Component>(&mut self, component: &C) -> (out: C::Output)
        ensures
            Context::post_draw(*final(self)),
    {
        self.state.reset_index();
        self.effects.reset_index();
        self.children.reset_index();
        let props = self.props.props.clone();
        let out = component.render(self, &props);
        let snap = PropsInternal {
            props: self.props.props.clone(),
            x_start: self.props.x_start,
            x_end: self.props.x_end,
            y_start: self.props.y_start,
            y_end: self.props.y_end,
        };
        self.last_drawn_props = Some(snap);
        self.state.drawn();
        let ghost mid = self.children;
        self.children.drawn();
        proof {
            mid.entries().filter_lemma(children::live_pred(mid.live_ids()));
            assert forall|k: int|
                0 <= k < self.children.entries().len() implies self.children.live_ids().contains(
                #[trigger] self.children.entries()[k].id,
            ) by {
                assert(children::live_pred(mid.live_ids())(self.children.entries()[k]));
            }
        }
        out
    }

    /// Run a render pass and paint: draw, then let the produced drawable
    /// paint itself into this context's assigned region. Returns the paint
    /// operations for the terminal glue to write.
    pub fn render<C: Component>(&mut self, component: &C) -> (r: Result<
        Vec<crate::components::PaintOp>,
        Error,
    >) where C::Output: crate::components::Drawable
        ensures
            Context::post_draw(*final(self)),
    {
        let out = self.draw(component);
        out.draw(
            self.props.x_start,
            self.props.x_end,
            self.props.y_start,
            self.props.y_end,
        )
    }

    /// Drain this context's event outbox: the runtime takes over exactly
    /// the events emitted so far, in order.
    pub fn take_events(&mut self) -> (evs: Vec<Event>)
        ensures
            evs@ == old(self).events(),
            final(self).events() == Seq::<Event>::empty(),
            final(self).props_view() == old(self).props_view(),
            final(self).region() == old(self).region(),
            final(self).drawn_props() == old(self).drawn_props(),
            final(self).drawn_region() == old(self).drawn_region(),
            final(self).state_store() == old(self).state_store(),
            final(self).effect_store() == old(self).effect_store(),
            final(self).child_store() == old(self).child_store(),
    {
        let evs = self.events.split_off(0);
        proof {
            assert(evs@ =~= old(self).events());
            assert(self.events@ =~= Seq::<Event>::empty());
        }
        evs
    }
}

/// The redraw suppression law: for a context whose last completed render
/// drew its current props, updating props with an equal value emits no
/// event, and updating with a different value emits exactly one redraw
/// event.
pub proof fn lemma_redraw_suppression(pre: Context, p: ValueV, post: Context)
    requires
        Context::update_props_rel(pre, p, post),
        pre.drawn_props() == Some(pre.props_view()),
    ensures
        p == pre.props_view() ==> post.events() == pre.events(),
        p != pre.props_view() ==> post.events() == pre.events().push(Event::Redraw),
{
}

/// The state equality suppression law: a setter called with a value equal
/// to the value its slot held at the last completed render warrants no
/// redraw; called with a different value, it warrants one.
pub proof fn lemma_state_equality_suppression(st: StateStore, slot: int, v: ValueV)
    requires
        st.drawn_slots() is Some,
        0 <= slot < st.drawn_slots()->Some_0.len(),
    ensures
        (st.drawn_slots()->Some_0[slot] == v) <==> !state::set_redraws(st, slot, v),
{
}

/// The hook slot stability law: state slots are independent; setting one
/// slot leaves the value of every other slot unchanged, so the two values
/// returned by a render that calls the state hook twice never perturb each
/// other.
pub proof fn lemma_hook_slot_stability(slots: Seq<ValueV>, i: int, v: ValueV, j: int)
    requires
        0 <= i < slots.len(),
        0 <= j < slots.len(),
        i != j,
    ensures
        slots.update(i, v)[j] == slots[j],
{
}

/// The child identity reuse law: the props-update transition a reused
/// child undergoes between two passes keeps its hook state, its last-drawn
/// snapshots and its own children intact — the same underlying child
/// context persists.
pub proof fn lemma_child_identity_reuse(pre: Context, p: ValueV, post: Context)
    requires
        Context::update_props_rel(pre, p, post),
    ensures
        post.state_store() == pre.state_store(),
        post.effect_store() == pre.effect_store(),
        post.child_store() == pre.child_store(),
        post.drawn_props() == pre.drawn_props(),
        post.drawn_region() == pre.drawn_region(),
{
}

} // verus!
