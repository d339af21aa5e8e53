use std::rc::Rc;

use arkham::container::Container;
use arkham::context::ViewContext;
use arkham::geometry::Pos;
use arkham::geometry::Rect;
use arkham::geometry::Size;
use arkham::runes::Runes;
use arkham::stack::StackAlignment;

fn context_fixture() -> ViewContext {
    let container = Rc::new(Container::new());
    ViewContext::new(container, Size::new(20, 10))
}

#[test]
fn test_vertical_insert() {
    let ctx = context_fixture();
    let mut stack = ctx.vertical_stack(Size::new(10, 2));
    stack.insert(Runes::from_str("one"));
    stack.insert(Runes::from_str("two"));
    assert_eq!(
        stack.view.render_text(),
        "one\0\0\0\0\0\0\0\ntwo\0\0\0\0\0\0\0\n".to_string()
    );
}

#[test]
fn test_horizontal_insert() {
    let ctx = context_fixture();
    let mut stack = ctx.horizontal_stack(Size::new(10, 1));
    stack.insert(Runes::from_str("one"));
    stack.insert(Runes::from_str("two"));
    assert_eq!(stack.view.render_text(), "onetwo\0\0\0\0\n".to_string());
}

#[test]
fn test_component() {
    let ctx = context_fixture();
    let mut stack = ctx.horizontal_stack(Size::new(10, 2));
    stack.component(Size::new(10, 2), |mut ctx: ViewContext| -> ViewContext {
        ctx.insert(Pos::new(3, 1), Runes::from_str("one"));
        ctx
    });
    assert_eq!(
        stack.view.render_text(),
        "\0\0\0\0\0\0\0\0\0\0\n\0\0\0one\0\0\0\0\n".to_string()
    );
}

#[test]
fn test_align_left() {
    let ctx = context_fixture();
    let mut stack = ctx.vertical_stack(Size::new(10, 2));
    stack.component(Size::new(5, 1), |mut ctx: ViewContext| -> ViewContext {
        ctx.insert(Pos::new(0, 0), Runes::from_str("one"));
        ctx
    });
    stack.insert(Runes::from_str("two"));
    assert_eq!(
        stack.view.render_text(),
        "one\0\0\0\0\0\0\0\ntwo\0\0\0\0\0\0\0\n".to_string()
    );
}

#[test]
fn test_align_right() {
    let ctx = context_fixture();
    let mut stack = ctx.vertical_stack(Size::new(10, 3));
    stack.alignment = StackAlignment::Right;
    stack.insert(Runes::from_str("one"));
    stack.component(Size::new(5, 1), |mut ctx: ViewContext| -> ViewContext {
        ctx.insert(Pos::new(0, 0), Runes::from_str("one"));
        ctx
    });
    stack.component(Size::new(10, 1), |mut ctx: ViewContext| -> ViewContext {
        ctx.insert(Pos::new(0, 0), Runes::from_str("two"));
        ctx
    });

    let res = "\0\0\0\0\0\0\0one\n\0\0\0\0\0one\0\0\ntwo\0\0\0\0\0\0\0\n".to_string();
    assert_eq!(stack.view.render_text(), res);
}

#[test]
fn test_align_center_v() {
    let ctx = context_fixture();
    let mut stack = ctx.vertical_stack(Size::new(10, 3));
    stack.alignment = StackAlignment::Center;
    stack.insert(Runes::from_str("one"));
    stack.component(Size::new(5, 1), |mut ctx: ViewContext| -> ViewContext {
        ctx.insert(Pos::new(0, 0), Runes::from_str("one"));
        ctx
    });
    stack.component(Size::new(10, 1), |mut ctx: ViewContext| -> ViewContext {
        ctx.insert(Pos::new(0, 0), Runes::from_str("two"));
        ctx
    });

    let res = "\0\0\0one\0\0\0\0\n\0\0one\0\0\0\0\0\ntwo\0\0\0\0\0\0\0\n".to_string();
    assert_eq!(stack.view.render_text(), res);
}

#[test]
fn test_align_top() {
    let ctx = context_fixture();
    let mut stack = ctx.horizontal_stack(Size::new(9, 6));
    stack.component(Size::new(3, 1), |mut ctx: ViewContext| -> ViewContext {
        ctx.insert(Pos::new(0, 0), Runes::from_str("one"));
        ctx
    });
    stack.component(Size::new(3, 3), |mut ctx: ViewContext| -> ViewContext {
        ctx.insert(Pos::new(0, 1), Runes::from_str("two"));
        ctx
    });
    stack.insert(Runes::from_str("one"));

    let res = "one\0\0\0one\n\0\0\0two\0\0\0\n\0\0\0\0\0\0\0\0\0\n\0\0\0\0\0\0\0\0\0\n\0\0\0\0\0\0\0\0\0\n\0\0\0\0\0\0\0\0\0\n"
        .to_string();
    assert_eq!(stack.view.render_text(), res.to_string());
}

#[test]
fn test_align_bottom() {
    let ctx = context_fixture();
    let mut stack = ctx.horizontal_stack(Size::new(9, 6));
    stack.alignment(StackAlignment::Bottom);
    stack.component(Size::new(3, 1), |mut ctx: ViewContext| -> ViewContext {
        ctx.insert(Pos::new(0, 0), Runes::from_str("one"));
        ctx
    });
    stack.component(Size::new(3, 3), |mut ctx: ViewContext| -> ViewContext {
        ctx.insert(Pos::new(0, 1), Runes::from_str("two"));
        ctx
    });
    stack.insert(Runes::from_str("one"));

    let res = "\0\0\0\0\0\0\0\0\0\n\0\0\0\0\0\0\0\0\0\n\0\0\0\0\0\0\0\0\0\n\0\0\0\0\0\0\0\0\0\n\0\0\0two\0\0\0\none\0\0\0one\n"
        .to_string();
    assert_eq!(stack.view.render_text(), res);
}

#[test]
fn test_align_center_h() {
    let ctx = context_fixture();
    let mut stack = ctx.horizontal_stack(Size::new(9, 6));
    stack.alignment(StackAlignment::Center);
    stack.component(Size::new(3, 1), |mut ctx: ViewContext| -> ViewContext {
        ctx.insert(Pos::new(0, 0), Runes::from_str("one"));
        ctx
    });
    stack.component(Size::new(3, 3), |mut ctx: ViewContext| -> ViewContext {
        ctx.insert(Pos::new(0, 1), Runes::from_str("two"));
        ctx
    });
    stack.insert(Runes::from_str("one"));

    let res = "\0\0\0\0\0\0\0\0\0\n\0\0\0\0\0\0\0\0\0\nonetwoone\n\0\0\0\0\0\0\0\0\0\n\0\0\0\0\0\0\0\0\0\n\0\0\0\0\0\0\0\0\0\n"
        .to_string();
    assert_eq!(stack.view.render_text(), res);
}

// Sequencing: N unit-height runs land on rows 0, 1, ..., N-1 in
// insertion order.
#[test]
fn test_vertical_sequencing_rows() {
    let ctx = context_fixture();
    let mut stack = ctx.vertical_stack(Size::new(3, 4));
    stack.insert(Runes::from_str("a"));
    stack.insert(Runes::from_str("b"));
    stack.insert(Runes::from_str("c"));
    stack.insert(Runes::from_str("d"));
    assert_eq!(stack.view.render_text(), "a\0\0\nb\0\0\nc\0\0\nd\0\0\n".to_string());
    assert_eq!(stack.position.y, 4);
    assert_eq!(stack.position.x, 0);
}

// Sequencing: horizontal runs land at x-offsets equal to the prefix sums
// of the preceding lengths.
#[test]
fn test_horizontal_sequencing_prefix_sums() {
    let ctx = context_fixture();
    let mut stack = ctx.horizontal_stack(Size::new(12, 1));
    stack.insert(Runes::from_str("ab"));
    stack.insert(Runes::from_str("cde"));
    stack.insert(Runes::from_str("f"));
    assert_eq!(stack.view.render_text(), "abcdef\0\0\0\0\0\0\n".to_string());
    assert_eq!(stack.position.x, 6);
    assert_eq!(stack.position.y, 0);
}

// A fully built stack is itself a renderable: mounting it composites its
// accumulated canvas at the origin of the mounting rectangle.
#[test]
fn test_stack_as_component() {
    let mut ctx = context_fixture();
    let mut stack = ctx.vertical_stack(Size::new(5, 2));
    stack.insert(Runes::from_str("hi"));
    let mounted = ctx.component(Rect::new(Pos::new(2, 3), Size::new(5, 2)), stack);
    assert!(mounted);
    assert_eq!(ctx.view.0[3][2].content, Some('h'));
    assert_eq!(ctx.view.0[3][3].content, Some('i'));
}

// The stack's zero-argument mount is owed success too.
#[test]
fn test_stack_component_fn() {
    let ctx = context_fixture();
    let mut stack = ctx.vertical_stack(Size::new(5, 2));
    stack.component_fn(Size::new(5, 1), |mut c: ViewContext| -> ViewContext {
        c.insert(Pos::new(0, 0), Runes::from_str("one"));
        c
    });
    assert_eq!(stack.view.render_text(), "one\0\0\n\0\0\0\0\0\n".to_string());
    assert_eq!(stack.position.y, 1);
}
