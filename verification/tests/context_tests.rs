use std::rc::Rc;

use arkham::container::Container;
use arkham::container::Res;
use arkham::context::ViewContext;
use arkham::geometry::Pos;
use arkham::geometry::Rect;
use arkham::geometry::Size;
use arkham::runes::Color;
use arkham::runes::Rune;
use arkham::runes::Runes;

fn fresh_context(w: usize, h: usize) -> ViewContext {
    ViewContext::new(Rc::new(Container::new()), Size::new(w, h))
}

// Region isolation: the same component function mounted at two different
// rectangles draws translations of the same picture — a write at local
// (0,0) lands at each rectangle's own corner.
#[test]
fn test_component_region_isolation() {
    let draw = |mut ctx: ViewContext| -> ViewContext {
        ctx.insert(Pos::new(0, 0), Runes::from_str("ok"));
        ctx
    };

    let mut a = fresh_context(10, 5);
    assert!(a.component(Rect::new(Pos::new(1, 1), Size::new(4, 1)), draw));
    let mut b = fresh_context(10, 5);
    assert!(b.component(Rect::new(Pos::new(6, 3), Size::new(4, 1)), draw));

    assert_eq!(a.view.0[1][1].content, Some('o'));
    assert_eq!(a.view.0[1][2].content, Some('k'));
    assert_eq!(b.view.0[3][6].content, Some('o'));
    assert_eq!(b.view.0[3][7].content, Some('k'));
}

// A child never sees the parent's content: it draws on a fresh, empty
// canvas of exactly its own size, and what it does not draw stays as the
// parent had it.
#[test]
fn test_component_child_starts_empty() {
    let mut ctx = fresh_context(4, 1);
    ctx.insert(Pos::new(0, 0), Runes::from_str("wxyz"));
    let ok = ctx.component(
        Rect::new(Pos::new(0, 0), Size::new(4, 1)),
        |mut child: ViewContext| -> ViewContext {
            assert_eq!(child.view.0[0][0].content, None);
            child.insert(Pos::new(1, 0), Runes::from_str("a"));
            child
        },
    );
    assert!(ok);
    assert_eq!(ctx.view.render_text(), "wayz\n".to_string());
}

// A child cannot draw outside its assigned rectangle: its canvas is
// sized to the rectangle and everything beyond is clipped.
#[test]
fn test_component_cannot_escape_region() {
    let mut ctx = fresh_context(6, 2);
    let ok = ctx.component(
        Rect::new(Pos::new(1, 0), Size::new(2, 1)),
        |mut child: ViewContext| -> ViewContext {
            child.insert(Pos::new(0, 0), Runes::from_str("abcdef"));
            child.insert(Pos::new(0, 1), Runes::from_str("zz"));
            child
        },
    );
    assert!(ok);
    assert_eq!(ctx.view.render_text(), "\0ab\0\0\0\n\0\0\0\0\0\0\n".to_string());
}

// A component with a missing binding reports failure and leaves the
// parent untouched.
#[test]
fn test_component_missing_binding() {
    struct Unbound;
    let mut ctx = fresh_context(3, 1);
    let ok = ctx.component(
        Rect::new(Pos::new(0, 0), Size::new(3, 1)),
        |mut child: ViewContext, _u: Res<Unbound>| -> ViewContext {
            child.insert(Pos::new(0, 0), Runes::from_str("no"));
            child
        },
    );
    assert!(!ok);
    assert_eq!(ctx.view.render_text(), "\0\0\0\n".to_string());
}

// The rerender flag set by a child propagates to the parent and stays
// set across later children that do not request it.
#[test]
fn test_rerender_propagates() {
    let mut ctx = fresh_context(3, 1);
    assert!(!ctx.rerender);
    assert!(ctx.component(
        Rect::new(Pos::new(0, 0), Size::new(1, 1)),
        |mut child: ViewContext| -> ViewContext {
            child.render();
            child
        },
    ));
    assert!(ctx.rerender);
    assert!(ctx.component(
        Rect::new(Pos::new(0, 0), Size::new(1, 1)),
        |child: ViewContext| -> ViewContext { child },
    ));
    assert!(ctx.rerender);
}

// An injected argument reaches the component function.
#[test]
fn test_component_injection() {
    struct Greeting {
        text: &'static str,
    }
    let mut container = Container::new();
    container.bind(Res::new(Greeting { text: "hey" }));
    let mut ctx = ViewContext::new(Rc::new(container), Size::new(5, 1));
    let ok = ctx.component(
        Rect::new(Pos::new(0, 0), Size::new(5, 1)),
        |mut child: ViewContext, g: Res<Greeting>| -> ViewContext {
            let text = g.get().text;
            child.insert(Pos::new(0, 0), Runes::from_str(text));
            child
        },
    );
    assert!(ok);
    assert_eq!(ctx.view.render_text(), "hey\0\0\n".to_string());
}

#[test]
fn test_set_rune_and_passthroughs() {
    let mut ctx = fresh_context(3, 2);
    ctx.set_rune(Pos::new(2, 1), Rune::new().content('z'));
    assert_eq!(ctx.view.0[1][2].content, Some('z'));
    // out of bounds is a no-op
    ctx.set_rune(Pos::new(9, 9), Rune::new().content('q'));
    ctx.fill(Rect::new(Pos::new(0, 0), Size::new(1, 1)), Rune::new().content('f'));
    assert_eq!(ctx.view.0[0][0].content, Some('f'));
    ctx.fill_all(Rune::new().bg(Color::Blue));
    assert_eq!(ctx.view.0[1][2].content, Some('z'));
    assert_eq!(ctx.view.0[1][2].bg, Some(Color::Blue));
    assert_eq!(ctx.width(), 3);
    assert_eq!(ctx.height(), 2);
}

// The zero-argument mount is owed success: component_fn renders and
// composites unconditionally.
#[test]
fn test_component_fn_mount() {
    let mut ctx = fresh_context(4, 2);
    ctx.component_fn(
        Rect::new(Pos::new(1, 0), Size::new(3, 1)),
        |mut child: ViewContext| -> ViewContext {
            child.insert(Pos::new(0, 0), Runes::from_str("ab"));
            child
        },
    );
    assert_eq!(ctx.view.render_text(), "\0ab\0\n\0\0\0\0\n".to_string());
}

// The statically checked mounting scenario also holds when run.
#[test]
fn test_isolated_mount_scenario() {
    let canvas = arkham::laws::isolated_mount_scenario();
    assert_eq!(canvas.render_text(), "\0\0\0\0\n\0k\0\0\n".to_string());
}
