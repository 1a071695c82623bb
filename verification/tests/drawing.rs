//! Values, leaf drawables, and canvas geometry.

use stateful_tui::{
    border, fragment, span, value_eq, Canvas, Context, CrosstermCanvas, Drawable, Value,
};

#[test]
fn value_equality_is_by_content() {
    assert!(value_eq(&Value::Unit, &Value::Unit));
    assert!(value_eq(&Value::Int(4), &Value::Int(4)));
    assert!(!value_eq(&Value::Int(4), &Value::Int(5)));
    assert!(!value_eq(&Value::Int(0), &Value::Unit));
    assert!(value_eq(&Value::Text("ab".to_string()), &Value::Text("ab".to_string())));
    assert!(!value_eq(&Value::Text("ab".to_string()), &Value::Text("ba".to_string())));
    assert!(value_eq(
        &Value::Sides(true, false, true, false),
        &Value::Sides(true, false, true, false)
    ));
    assert!(!value_eq(
        &Value::Sides(true, false, true, false),
        &Value::Sides(true, false, false, false)
    ));
    assert!(!value_eq(&Value::Bool(true), &Value::Bool(false)));
    assert!(value_eq(&Value::Bool(true), &Value::Bool(true)));
}

#[test]
fn span_paints_its_text_at_the_origin() {
    let mut ctx = Context::new(Value::Unit);
    let d = span(&mut ctx, &Value::Text("hello".to_string()));
    let ops = d.draw(2, 30, 1, 5).unwrap();
    assert_eq!(ops.len(), 1);
    assert_eq!((ops[0].x, ops[0].y), (2, 1));
    assert_eq!(ops[0].text, "hello");

    // Props of another shape render as empty text.
    let d = span(&mut ctx, &Value::Int(3));
    let ops = d.draw(0, 10, 0, 1).unwrap();
    assert_eq!(ops[0].text, "");
}

#[test]
fn fragment_paints_blank_rows() {
    let mut ctx = Context::new(Value::Unit);
    let d = fragment(&mut ctx, &Value::Unit);
    let ops = d.draw(1, 5, 2, 4).unwrap();
    assert_eq!(ops.len(), 2);
    assert_eq!((ops[0].x, ops[0].y), (1, 2));
    assert_eq!((ops[1].x, ops[1].y), (1, 3));
    assert_eq!(ops[0].text, "    ");
    assert_eq!(ops[1].text, "    ");
}

#[test]
fn border_paints_edges() {
    let mut ctx = Context::new(Value::Unit);
    let d = border(&mut ctx, &Value::Sides(true, true, true, true));
    let ops = d.draw(0, 4, 0, 3).unwrap();
    assert_eq!(ops.len(), 3);
    assert_eq!(ops[0].text, "----");
    assert_eq!(ops[1].text, "|  |");
    assert_eq!(ops[2].text, "----");

    let d = border(&mut ctx, &Value::Sides(false, false, true, false));
    let ops = d.draw(0, 3, 0, 2).unwrap();
    assert_eq!(ops[0].text, "|  ");
    assert_eq!(ops[1].text, "|  ");

    // Props of another shape render with no edges.
    let d = border(&mut ctx, &Value::Unit);
    let ops = d.draw(0, 2, 0, 1).unwrap();
    assert_eq!(ops[0].text, "  ");
}

#[test]
fn canvas_reports_its_extent() {
    let c = CrosstermCanvas::new(2, 10, 3, 7);
    assert_eq!(c.width(), 8);
    assert_eq!(c.height(), 4);
}

#[test]
fn canvas_split_width_clamps() {
    let c = CrosstermCanvas::new(0, 10, 0, 4);
    let (l, r) = c.split_width(3);
    assert_eq!((l.width(), l.height()), (3, 4));
    assert_eq!((r.width(), r.height()), (7, 4));

    let (l, r) = c.split_width(99);
    assert_eq!(l.width(), 10);
    assert_eq!(r.width(), 0);
}

#[test]
fn canvas_split_height_clamps() {
    let c = CrosstermCanvas::new(0, 10, 0, 4);
    let (t, b) = c.split_height(1);
    assert_eq!((t.width(), t.height()), (10, 1));
    assert_eq!((b.width(), b.height()), (10, 3));

    let (t, b) = c.split_height(50);
    assert_eq!(t.height(), 4);
    assert_eq!(b.height(), 0);
}

#[test]
fn canvas_shrink_clamps_each_edge() {
    let c = CrosstermCanvas::new(0, 10, 0, 10);
    let inner = c.shrink(1, 1, 2, 3);
    assert_eq!(inner.width(), 5);
    assert_eq!(inner.height(), 8);

    // Oversized insets collapse the region rather than inverting it.
    let inner = c.shrink(0, 0, 7, 7);
    assert_eq!(inner.width(), 0);
    let inner = c.shrink(20, 0, 0, 20);
    assert_eq!(inner.width(), 0);
    assert_eq!(inner.height(), 0);
}
