//! Hook behavior of a context: redraw suppression, state slots, effects,
//! and keyed children, driven through the public component interface.

use std::cell::RefCell;
use std::rc::Rc;

use stateful_tui::{
    fragment, span, ChildIdentifier, Component, Context, DrawFragment, DrawSpan, Error, Event,
    StateSetter, Value, ValueKind,
};

/// A component that renders to a blank fragment and uses no hooks.
struct Inert;

impl Component for Inert {
    type Output = DrawFragment;

    fn render(&self, c: &mut Context, props: &Value) -> DrawFragment {
        fragment(c, props)
    }
}

/// A component holding one integer state slot; it reports the value it saw
/// and the setter it was handed, and renders the value as a span.
struct Counter {
    seen: Rc<RefCell<Vec<i64>>>,
    setter: Rc<RefCell<Option<StateSetter>>>,
}

impl Component for Counter {
    type Output = DrawSpan;

    fn render(&self, c: &mut Context, _props: &Value) -> DrawSpan {
        let (v, setter) = c.use_state(ValueKind::Int, || Value::Int(0)).unwrap();
        let n = match v {
            Value::Int(n) => n,
            _ => panic!("state slot changed shape"),
        };
        self.seen.borrow_mut().push(n);
        *self.setter.borrow_mut() = Some(setter);
        span(c, &Value::Text(format!("{}", n)))
    }
}

fn counter() -> (Counter, Rc<RefCell<Vec<i64>>>, Rc<RefCell<Option<StateSetter>>>) {
    let seen = Rc::new(RefCell::new(Vec::new()));
    let setter = Rc::new(RefCell::new(None));
    (Counter { seen: seen.clone(), setter: setter.clone() }, seen, setter)
}

#[test]
fn redraw_suppressed_on_equal_props() {
    let mut ctx = Context::new(Value::Int(5));
    ctx.draw(&Inert);
    assert_eq!(ctx.take_events(), vec![]);

    ctx.update_props(Value::Int(5));
    assert_eq!(ctx.take_events(), vec![]);

    ctx.update_props(Value::Int(6));
    assert_eq!(ctx.take_events(), vec![Event::Redraw]);
}

#[test]
fn redraw_emitted_before_first_draw() {
    let mut ctx = Context::new(Value::Unit);
    ctx.update_props(Value::Unit);
    assert_eq!(ctx.take_events(), vec![Event::Redraw]);
}

#[test]
fn events_drain_in_emission_order() {
    let mut ctx = Context::new(Value::Int(0));
    ctx.update_props(Value::Int(1));
    ctx.update_size(0, 10, 0, 10);
    assert_eq!(ctx.take_events(), vec![Event::Redraw, Event::Redraw]);
    assert_eq!(ctx.take_events(), vec![]);
}

#[test]
fn redraw_suppressed_on_equal_size() {
    let mut ctx = Context::new(Value::Unit);
    ctx.update_size(0, 80, 0, 24);
    assert_eq!(ctx.take_events(), vec![Event::Redraw]);

    ctx.draw(&Inert);
    ctx.update_size(0, 80, 0, 24);
    assert_eq!(ctx.take_events(), vec![]);

    ctx.update_size(0, 100, 0, 24);
    assert_eq!(ctx.take_events(), vec![Event::Redraw]);
}

#[test]
fn state_setter_equal_value_suppresses_redraw() {
    let (comp, seen, setter) = counter();
    let mut ctx = Context::new(Value::Unit);
    ctx.draw(&comp);
    assert_eq!(*seen.borrow(), vec![0]);
    let setter = setter.borrow().unwrap();

    ctx.set_state(&setter, Value::Int(0)).unwrap();
    assert_eq!(ctx.take_events(), vec![]);

    ctx.set_state(&setter, Value::Int(3)).unwrap();
    assert_eq!(ctx.take_events(), vec![Event::Redraw]);

    ctx.draw(&comp);
    assert_eq!(*seen.borrow(), vec![0, 3]);
}

/// A component holding two integer state slots in a fixed order.
struct TwoSlots {
    seen: Rc<RefCell<Vec<(i64, i64)>>>,
    setters: Rc<RefCell<Option<(StateSetter, StateSetter)>>>,
}

impl Component for TwoSlots {
    type Output = DrawFragment;

    fn render(&self, c: &mut Context, props: &Value) -> DrawFragment {
        let (a, set_a) = c.use_state(ValueKind::Int, || Value::Int(10)).unwrap();
        let (b, set_b) = c.use_state(ValueKind::Int, || Value::Int(20)).unwrap();
        let (a, b) = match (a, b) {
            (Value::Int(a), Value::Int(b)) => (a, b),
            _ => panic!("state slots changed shape"),
        };
        self.seen.borrow_mut().push((a, b));
        *self.setters.borrow_mut() = Some((set_a, set_b));
        fragment(c, props)
    }
}

#[test]
fn hook_slots_are_stable_and_independent() {
    let seen = Rc::new(RefCell::new(Vec::new()));
    let setters = Rc::new(RefCell::new(None));
    let comp = TwoSlots { seen: seen.clone(), setters: setters.clone() };
    let mut ctx = Context::new(Value::Unit);

    ctx.draw(&comp);
    assert_eq!(*seen.borrow(), vec![(10, 20)]);
    let (set_a, _set_b) = setters.borrow().unwrap();

    ctx.set_state(&set_a, Value::Int(11)).unwrap();
    ctx.draw(&comp);
    ctx.set_state(&set_a, Value::Int(12)).unwrap();
    ctx.draw(&comp);
    assert_eq!(*seen.borrow(), vec![(10, 20), (11, 20), (12, 20)]);
}

#[test]
fn state_slot_shape_is_checked() {
    let (comp, _seen, setter) = counter();
    let mut ctx = Context::new(Value::Unit);
    ctx.draw(&comp);
    let setter = setter.borrow().unwrap();

    assert_eq!(
        ctx.set_state(&setter, Value::Text("nope".to_string())),
        Err(Error::StateTypeMismatch)
    );
    assert_eq!(
        ctx.set_state(&StateSetter { slot: 9 }, Value::Int(1)),
        Err(Error::StoreDesync)
    );
}

/// A component that declares one effect whose arguments it reads from a
/// shared cell, reporting whether the effect fired.
struct Effectful {
    args: Rc<RefCell<i64>>,
    fired: Rc<RefCell<Vec<bool>>>,
}

impl Component for Effectful {
    type Output = DrawFragment;

    fn render(&self, c: &mut Context, props: &Value) -> DrawFragment {
        let fired = c.use_effect(Value::Int(*self.args.borrow())).unwrap();
        self.fired.borrow_mut().push(fired);
        fragment(c, props)
    }
}

#[test]
fn effect_fires_once_for_unchanged_args() {
    let args = Rc::new(RefCell::new(1));
    let fired = Rc::new(RefCell::new(Vec::new()));
    let comp = Effectful { args: args.clone(), fired: fired.clone() };
    let mut ctx = Context::new(Value::Unit);

    ctx.draw(&comp);
    ctx.draw(&comp);
    ctx.draw(&comp);
    assert_eq!(*fired.borrow(), vec![true, false, false]);
    assert_eq!(ctx.take_events(), vec![Event::NewEffect]);

    *args.borrow_mut() = 2;
    ctx.draw(&comp);
    ctx.draw(&comp);
    assert_eq!(*fired.borrow(), vec![true, false, false, true, false]);
    assert_eq!(ctx.take_events(), vec![Event::NewEffect]);
}

/// A component whose effect arguments change shape between renders.
struct ShiftyEffect {
    text_args: Rc<RefCell<bool>>,
    errors: Rc<RefCell<Vec<Error>>>,
}

impl Component for ShiftyEffect {
    type Output = DrawFragment;

    fn render(&self, c: &mut Context, props: &Value) -> DrawFragment {
        let args = if *self.text_args.borrow() {
            Value::Text("t".to_string())
        } else {
            Value::Int(0)
        };
        if let Err(e) = c.use_effect(args) {
            self.errors.borrow_mut().push(e);
        }
        fragment(c, props)
    }
}

#[test]
fn effect_args_shape_is_checked() {
    let text_args = Rc::new(RefCell::new(false));
    let errors = Rc::new(RefCell::new(Vec::new()));
    let comp = ShiftyEffect { text_args: text_args.clone(), errors: errors.clone() };
    let mut ctx = Context::new(Value::Unit);

    ctx.draw(&comp);
    assert_eq!(*errors.borrow(), vec![]);

    *text_args.borrow_mut() = true;
    ctx.draw(&comp);
    assert_eq!(*errors.borrow(), vec![Error::EffectTypeMismatch]);
}

/// A parent that adds one child — a `Counter`-like effectful component —
/// under a fixed key, or none at all, as told by a shared flag.
struct Parent {
    with_child: Rc<RefCell<bool>>,
    child: Effectful,
    errors: Rc<RefCell<Vec<Error>>>,
}

const KEY: ChildIdentifier = ChildIdentifier { line: 7, column: 3 };

impl Component for Parent {
    type Output = DrawFragment;

    fn render(&self, c: &mut Context, props: &Value) -> DrawFragment {
        if *self.with_child.borrow() {
            if let Err(e) = c.add_child(KEY, &self.child, Value::Unit) {
                self.errors.borrow_mut().push(e);
            }
        }
        fragment(c, props)
    }
}

#[test]
fn child_identity_reused_and_pruned() {
    let with_child = Rc::new(RefCell::new(true));
    let child_args = Rc::new(RefCell::new(0));
    let child_fired = Rc::new(RefCell::new(Vec::new()));
    let errors = Rc::new(RefCell::new(Vec::new()));
    let comp = Parent {
        with_child: with_child.clone(),
        child: Effectful { args: child_args.clone(), fired: child_fired.clone() },
        errors: errors.clone(),
    };
    let mut ctx = Context::new(Value::Unit);

    // Two passes touching the key: the child context is reused, so its
    // effect slot persists and the effect fires only on the first pass.
    // The child's event reaches the parent's outbox.
    ctx.draw(&comp);
    assert_eq!(ctx.take_events(), vec![Event::NewEffect]);
    ctx.draw(&comp);
    assert_eq!(ctx.take_events(), vec![]);
    assert_eq!(*child_fired.borrow(), vec![true, false]);

    // A pass without the key evicts the child; re-adding it creates a
    // fresh context, whose effect slot is new, so the effect fires again.
    *with_child.borrow_mut() = false;
    ctx.draw(&comp);
    *with_child.borrow_mut() = true;
    ctx.draw(&comp);
    assert_eq!(*child_fired.borrow(), vec![true, false, true]);
    assert_eq!(*errors.borrow(), vec![]);
}

/// A parent that re-adds the same key with props of a different shape.
struct ShapeShiftingParent {
    text_props: Rc<RefCell<bool>>,
    errors: Rc<RefCell<Vec<Error>>>,
}

impl Component for ShapeShiftingParent {
    type Output = DrawFragment;

    fn render(&self, c: &mut Context, props: &Value) -> DrawFragment {
        let child_props = if *self.text_props.borrow() {
            Value::Text("p".to_string())
        } else {
            Value::Int(0)
        };
        if let Err(e) = c.add_child(KEY, &Inert, child_props) {
            self.errors.borrow_mut().push(e);
        }
        fragment(c, props)
    }
}

#[test]
fn child_key_shape_is_checked() {
    let text_props = Rc::new(RefCell::new(false));
    let errors = Rc::new(RefCell::new(Vec::new()));
    let comp = ShapeShiftingParent { text_props: text_props.clone(), errors: errors.clone() };
    let mut ctx = Context::new(Value::Unit);

    ctx.draw(&comp);
    assert_eq!(*errors.borrow(), vec![]);

    *text_props.borrow_mut() = true;
    ctx.draw(&comp);
    assert_eq!(*errors.borrow(), vec![Error::ChildTypeMismatch]);
}
