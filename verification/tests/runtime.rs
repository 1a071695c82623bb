//! Runtime-level behavior: the end-to-end render/effect/setter scenario,
//! the event dispatch of the render loop, input translation, the effect
//! scheduler, and the terminal-mode teardown.

use std::cell::RefCell;
use std::rc::Rc;

use stateful_tui::{
    handle_event, span, Component, Context, DrawSpan, EffectScheduler, Error, Event, InputEvent,
    LoopStep, StateSetter, Tui, Value, ValueKind,
};

/// The root of the end-to-end scenario: one integer state slot starting at
/// zero, one effect with no arguments, and a text leaf formatted from the
/// state value.
struct Root {
    setter: Rc<RefCell<Option<StateSetter>>>,
    fired: Rc<RefCell<Vec<bool>>>,
}

impl Component for Root {
    type Output = DrawSpan;

    fn render(&self, c: &mut Context, _props: &Value) -> DrawSpan {
        let (v, setter) = c.use_state(ValueKind::Int, || Value::Int(0)).unwrap();
        *self.setter.borrow_mut() = Some(setter);
        let fired = c.use_effect(Value::Unit).unwrap();
        self.fired.borrow_mut().push(fired);
        let n = match v {
            Value::Int(n) => n,
            _ => panic!("state slot changed shape"),
        };
        span(c, &Value::Text(format!("{}", n)))
    }
}

#[test]
fn end_to_end_scenario() {
    let setter = Rc::new(RefCell::new(None));
    let fired = Rc::new(RefCell::new(Vec::new()));
    let comp = Root { setter: setter.clone(), fired: fired.clone() };
    let mut ctx = Context::new(Value::Unit);
    ctx.update_size(0, 20, 0, 5);
    assert_eq!(ctx.take_events(), vec![Event::Redraw]);

    // First render: the leaf shows 0 and exactly one effect is scheduled.
    let ops = ctx.render(&comp).unwrap();
    assert_eq!(ops.len(), 1);
    assert_eq!(ops[0].text, "0");
    assert_eq!(*fired.borrow(), vec![true]);
    assert_eq!(ctx.take_events(), vec![Event::NewEffect]);

    // The effect runs and calls the setter with 104: exactly one redraw.
    let setter = setter.borrow().unwrap();
    ctx.set_state(&setter, Value::Int(104)).unwrap();
    assert_eq!(ctx.take_events(), vec![Event::Redraw]);

    // The redraw shows 104; the effect does not re-fire, nothing further
    // is emitted.
    let ops = ctx.render(&comp).unwrap();
    assert_eq!(ops[0].text, "104");
    assert_eq!(*fired.borrow(), vec![true, false]);
    assert_eq!(ctx.take_events(), vec![]);

    // The setter called again with an equal value stays silent.
    ctx.set_state(&setter, Value::Int(104)).unwrap();
    assert_eq!(ctx.take_events(), vec![]);
}

#[test]
fn dispatch_follows_the_event_kind() {
    let setter = Rc::new(RefCell::new(None));
    let fired = Rc::new(RefCell::new(Vec::new()));
    let comp = Root { setter: setter.clone(), fired: fired.clone() };
    let mut ctx = Context::new(Value::Unit);

    match handle_event(&mut ctx, &comp, &Event::Resized(80, 24)) {
        Ok(LoopStep::Continue) => {},
        other => panic!("resize dispatched to {:?}", other.map(|_| ())),
    }
    assert_eq!(ctx.take_events(), vec![Event::Redraw]);

    match handle_event(&mut ctx, &comp, &Event::Redraw) {
        Ok(LoopStep::Painted(ops)) => assert_eq!(ops[0].text, "0"),
        other => panic!("redraw dispatched to {:?}", other.map(|_| ())),
    }

    assert!(matches!(handle_event(&mut ctx, &comp, &Event::NewEffect), Ok(LoopStep::Forward)));
    assert!(matches!(handle_event(&mut ctx, &comp, &Event::Exit), Ok(LoopStep::Stop)));
}

#[test]
fn input_translation() {
    assert_eq!(
        stateful_tui::translate_input(&InputEvent::Resize(100, 42)),
        Some(Event::Resized(100, 42))
    );
    assert_eq!(
        stateful_tui::translate_input(&InputEvent::Key { ctrl: true, chr: Some('c') }),
        Some(Event::Exit)
    );
    assert_eq!(
        stateful_tui::translate_input(&InputEvent::Key { ctrl: false, chr: Some('c') }),
        None
    );
    assert_eq!(
        stateful_tui::translate_input(&InputEvent::Key { ctrl: true, chr: Some('d') }),
        None
    );
    assert_eq!(
        stateful_tui::translate_input(&InputEvent::Key { ctrl: true, chr: None }),
        None
    );
    assert_eq!(stateful_tui::translate_input(&InputEvent::Mouse), None);
}

#[test]
fn teardown_restores_modes_exactly_once() {
    let mut tui = Tui::new_default();
    assert_eq!(tui.setup(), (true, true));

    // Whatever ended the loop, one teardown releases both modes...
    assert_eq!(tui.teardown(), (true, true));

    // ...and a second teardown finds nothing left to release.
    assert_eq!(tui.teardown(), (false, false));
}

#[test]
fn effect_scheduler_exits_when_closed_and_drained() {
    let mut s = EffectScheduler::new();
    assert!(!s.must_exit());

    s.on_new().unwrap();
    s.on_new().unwrap();
    s.on_closed();
    assert!(!s.must_exit());

    s.on_complete().unwrap();
    assert!(!s.must_exit());
    s.on_complete().unwrap();
    assert!(s.must_exit());

    assert_eq!(s.on_complete(), Err(Error::StoreDesync));
}

/// A component whose single state slot changes its declared shape between
/// renders.
struct ShiftyState {
    text_kind: Rc<RefCell<bool>>,
    errors: Rc<RefCell<Vec<Error>>>,
}

impl Component for ShiftyState {
    type Output = DrawSpan;

    fn render(&self, c: &mut Context, _props: &Value) -> DrawSpan {
        let r = if *self.text_kind.borrow() {
            c.use_state(ValueKind::Text, || Value::Text(String::new()))
        } else {
            c.use_state(ValueKind::Int, || Value::Int(0))
        };
        if let Err(e) = r {
            self.errors.borrow_mut().push(e);
        }
        span(c, &Value::Text(String::new()))
    }
}

#[test]
fn state_slot_revisit_shape_is_checked() {
    let text_kind = Rc::new(RefCell::new(false));
    let errors = Rc::new(RefCell::new(Vec::new()));
    let comp = ShiftyState { text_kind: text_kind.clone(), errors: errors.clone() };
    let mut ctx = Context::new(Value::Unit);

    ctx.draw(&comp);
    assert_eq!(*errors.borrow(), vec![]);

    *text_kind.borrow_mut() = true;
    ctx.draw(&comp);
    assert_eq!(*errors.borrow(), vec![Error::StateTypeMismatch]);
}
