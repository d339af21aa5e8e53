use arkham::canvas::Canvas;
use arkham::geometry::Pos;
use arkham::geometry::Rect;
use arkham::geometry::Size;
use arkham::runes::Color;
use arkham::runes::Rune;
use arkham::runes::Runes;

#[test]
pub fn test_insert_pos() {
    let mut view = Canvas::new(Size::new(5, 3));
    view.insert(Pos::new(1, 2), Runes::from_str("test"));
    assert_eq!(view.0[2][1].content, Some('t'));
    assert_eq!(view.0[2][2].content, Some('e'));
    assert_eq!(view.0[2][3].content, Some('s'));
    assert_eq!(view.0[2][4].content, Some('t'));
}

#[test]
pub fn test_fill() {
    let mut view = Canvas::new(Size::new(3, 3));
    view.fill(Rect::new(Pos::new(1, 1), Size::new(2, 2)), Rune::new().content('X'));
    assert_eq!(view.0[0][0].content, None);
    assert_eq!(view.0[0][1].content, None);
    assert_eq!(view.0[0][2].content, None);

    assert_eq!(view.0[1][0].content, None);
    assert_eq!(view.0[1][1].content, Some('X'));
    assert_eq!(view.0[1][2].content, Some('X'));

    assert_eq!(view.0[2][0].content, None);
    assert_eq!(view.0[2][1].content, Some('X'));
    assert_eq!(view.0[2][2].content, Some('X'));
}

#[test]
pub fn test_fill_overflow() {
    let mut view = Canvas::new(Size::new(3, 3));
    view.fill(Rect::new(Pos::new(1, 1), Size::new(4, 4)), Rune::new().content('X'));
    assert_eq!(view.0[0][0].content, None);
    assert_eq!(view.0[0][1].content, None);
    assert_eq!(view.0[0][2].content, None);

    assert_eq!(view.0[1][0].content, None);
    assert_eq!(view.0[1][1].content, Some('X'));
    assert_eq!(view.0[1][2].content, Some('X'));

    assert_eq!(view.0[2][0].content, None);
    assert_eq!(view.0[2][1].content, Some('X'));
    assert_eq!(view.0[2][2].content, Some('X'));
}

#[test]
pub fn test_apply() {
    let mut view1 = Canvas::new(Size::new(3, 4));
    view1.fill(Rect::new(Pos::new(1, 1), Size::new(2, 2)), Rune::new().content('X'));
    let mut view2 = Canvas::new(Size::new(3, 4));
    view2.apply(Pos::new(0, 1), &view1);
    assert_eq!(view2.0[0][0].content, None);
    assert_eq!(view2.0[0][1].content, None);
    assert_eq!(view2.0[0][2].content, None);

    assert_eq!(view2.0[1][0].content, None);
    assert_eq!(view2.0[1][1].content, None);
    assert_eq!(view2.0[1][2].content, None);

    assert_eq!(view2.0[2][0].content, None);
    assert_eq!(view2.0[2][1].content, Some('X'));
    assert_eq!(view2.0[2][2].content, Some('X'));

    assert_eq!(view2.0[3][0].content, None);
    assert_eq!(view2.0[3][1].content, Some('X'));
    assert_eq!(view2.0[3][2].content, Some('X'));
}

#[test]
pub fn test_apply_overflow() {
    let mut view0 = Canvas::new(Size::new(5, 5));
    view0.fill(Rect::new(Pos::new(1, 1), Size::new(4, 4)), Rune::new().content('X'));
    let mut view = Canvas::new(Size::new(3, 3));
    view.apply(Pos::new(0, 0), &view0);
    assert_eq!(view.0[0][0].content, None);
    assert_eq!(view.0[0][1].content, None);
    assert_eq!(view.0[0][2].content, None);

    assert_eq!(view.0[1][0].content, None);
    assert_eq!(view.0[1][1].content, Some('X'));
    assert_eq!(view.0[1][2].content, Some('X'));

    assert_eq!(view.0[2][0].content, None);
    assert_eq!(view.0[2][1].content, Some('X'));
    assert_eq!(view.0[2][2].content, Some('X'));
}

// Filling with an oversized rectangle gives exactly the same canvas as
// filling with the rectangle already clipped to the canvas bounds.
#[test]
fn test_fill_clipping_matches_clipped_rect() {
    let rune = Rune::new().content('#');
    let mut oversized = Canvas::new(Size::new(4, 3));
    oversized.fill(Rect::new(Pos::new(2, 1), Size::new(100, 100)), rune);
    let mut clipped = Canvas::new(Size::new(4, 3));
    clipped.fill(Rect::new(Pos::new(2, 1), Size::new(2, 2)), rune);
    assert_eq!(oversized.render_text(), clipped.render_text());
}

// A source cell with styling but no character is skipped entirely by
// apply: the destination cell keeps both its content and its styling.
#[test]
fn test_apply_skips_styled_cells_without_content() {
    let mut src = Canvas::new(Size::new(2, 1));
    src.fill(
        Rect::new(Pos::new(0, 0), Size::new(1, 1)),
        Rune::new().bg(Color::Blue),
    );
    src.insert(Pos::new(1, 0), Runes::from_str("b"));
    let mut dst = Canvas::new(Size::new(2, 1));
    dst.insert(Pos::new(0, 0), Runes::from_str("a"));
    dst.apply(Pos::new(0, 0), &src);
    assert_eq!(dst.0[0][0].content, Some('a'));
    assert_eq!(dst.0[0][0].bg, None);
    assert_eq!(dst.0[0][1].content, Some('b'));
}

// Composition keeps the destination's styling wherever the source cell
// leaves an attribute unset, and takes the source's where it sets one.
#[test]
fn test_apply_overlay_merges_attributes() {
    let mut dst = Canvas::new(Size::new(1, 1));
    dst.fill(
        Rect::new(Pos::new(0, 0), Size::new(1, 1)),
        Rune::new().content('a').bg(Color::Red).fg(Color::White),
    );
    let mut src = Canvas::new(Size::new(1, 1));
    src.fill(
        Rect::new(Pos::new(0, 0), Size::new(1, 1)),
        Rune::new().content('b').fg(Color::Green),
    );
    dst.apply(Pos::new(0, 0), &src);
    assert_eq!(dst.0[0][0].content, Some('b'));
    assert_eq!(dst.0[0][0].fg, Some(Color::Green));
    assert_eq!(dst.0[0][0].bg, Some(Color::Red));
}

#[test]
fn test_render_text_exact() {
    let mut view = Canvas::new(Size::new(3, 2));
    view.insert(Pos::new(0, 0), Runes::from_str("ab"));
    view.insert(Pos::new(2, 1), Runes::from_str("c"));
    assert_eq!(view.render_text(), "ab\0\n\0\0c\n".to_string());
}

#[test]
fn test_zero_size_canvas() {
    let mut view = Canvas::new(Size::new(0, 0));
    assert_eq!(view.width(), 0);
    assert_eq!(view.height(), 0);
    view.insert(Pos::new(0, 0), Runes::from_str("abc"));
    view.fill(Rect::new(Pos::new(0, 0), Size::new(5, 5)), Rune::new().content('X'));
    let other = Canvas::new(Size::new(2, 2));
    view.apply(Pos::new(0, 0), &other);
    assert_eq!(view.render_text(), "".to_string());
}

#[test]
fn test_paint_fills_background() {
    let mut view = Canvas::new(Size::new(2, 1));
    view.insert(Pos::new(0, 0), Runes::from_str("x"));
    view.paint(Rect::new(Pos::new(0, 0), Size::new(2, 1)), Color::Magenta);
    // The paint rune has a space glyph, so it covers the previous char,
    // and sets the background everywhere.
    assert_eq!(view.0[0][0].content, Some(' '));
    assert_eq!(view.0[0][0].bg, Some(Color::Magenta));
    assert_eq!(view.0[0][1].content, Some(' '));
    assert_eq!(view.0[0][1].bg, Some(Color::Magenta));
}

#[test]
fn test_size_accessors() {
    let view = Canvas::new(Size::new(7, 4));
    assert_eq!(view.width(), 7);
    assert_eq!(view.height(), 4);
    let size = view.size();
    assert_eq!(size.width, 7);
    assert_eq!(size.height, 4);
}

// The diff between two frames lists, in row-major order, exactly the
// cells whose value changed, with their new values.
#[test]
fn test_diff_lists_changed_cells() {
    let mut prev = Canvas::new(Size::new(3, 2));
    prev.insert(Pos::new(0, 0), Runes::from_str("ab"));
    let mut next = prev.clone();
    next.insert(Pos::new(1, 0), Runes::from_str("X"));
    next.insert(Pos::new(2, 1), Runes::from_str("z"));
    let changes = next.diff(&prev);
    assert_eq!(changes.len(), 2);
    assert_eq!(changes[0].0.x, 1);
    assert_eq!(changes[0].0.y, 0);
    assert_eq!(changes[0].1.content, Some('X'));
    assert_eq!(changes[1].0.x, 2);
    assert_eq!(changes[1].0.y, 1);
    assert_eq!(changes[1].1.content, Some('z'));

    let unchanged = next.diff(&next.clone());
    assert_eq!(unchanged.len(), 0);
}
