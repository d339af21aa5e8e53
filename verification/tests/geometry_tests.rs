use arkham::geometry::Pos;
use arkham::geometry::Rect;
use arkham::geometry::Size;

#[test]
fn test_pos_new() {
    let pos = Pos::new(3, 1);
    assert_eq!(pos.x, 3);
    assert_eq!(pos.y, 1);
}

#[test]
fn test_size_new() {
    let s = Size::new(3, 3);
    assert_eq!(s.width, 3);
    assert_eq!(s.height, 3);
}

#[test]
fn test_size_grow_and_shrink() {
    let s = Size::new(3, 3).grow(2);
    assert_eq!(s.width, 5);
    assert_eq!(s.height, 5);
    let s = s.grow(-4);
    assert_eq!(s.width, 1);
    assert_eq!(s.height, 1);
    // shrinking below zero clamps at zero
    let s = s.grow(-10);
    assert_eq!(s.width, 0);
    assert_eq!(s.height, 0);
}

#[test]
fn test_rect_new_zero_with_size() {
    let r = Rect::new(Pos::new(2, 3), Size::new(4, 5));
    assert_eq!(r.pos.x, 2);
    assert_eq!(r.pos.y, 3);
    assert_eq!(r.size.width, 4);
    assert_eq!(r.size.height, 5);

    let z = Rect::zero();
    assert_eq!(z.pos.x, 0);
    assert_eq!(z.size.width, 0);

    let w = Rect::with_size(Size::new(7, 8));
    assert_eq!(w.pos.x, 0);
    assert_eq!(w.size.height, 8);
}

#[test]
fn test_rect_translate() {
    let mut rect = Rect::new(Pos::new(0, 0), Size::new(15, 5));
    rect.translate(5, 0);
    assert_eq!(rect.pos.x, 5);
    rect.translate(-2, 3);
    assert_eq!(rect.pos.x, 3);
    assert_eq!(rect.pos.y, 3);
    // clamped at zero instead of going negative
    rect.translate(-10, -10);
    assert_eq!(rect.pos.x, 0);
    assert_eq!(rect.pos.y, 0);
    assert_eq!(rect.size.width, 15);
}

#[test]
fn test_rect_expand() {
    let mut rect = Rect::new(Pos::new(0, 0), Size::new(15, 5));
    rect.expand(5, 0);
    assert_eq!(rect.size.width, 20);
    // clamped at one instead of going empty or negative
    rect.expand(-100, -100);
    assert_eq!(rect.size.width, 1);
    assert_eq!(rect.size.height, 1);
    assert_eq!(rect.pos.x, 0);
}

// Tuple and broadcast-scalar conversions into the geometry primitives.
#[test]
fn test_conversions() {
    let p = Pos::from((3usize, 1usize));
    assert_eq!(p.x, 3);
    assert_eq!(p.y, 1);
    let p: Pos = 5usize.into();
    assert_eq!(p.x, 5);
    assert_eq!(p.y, 5);
    let s: Size = (4usize, 2usize).into();
    assert_eq!(s.width, 4);
    assert_eq!(s.height, 2);
    let s = Size::from((80u16, 24u16));
    assert_eq!(s.width, 80);
    assert_eq!(s.height, 24);
    let s: Size = 7usize.into();
    assert_eq!(s.height, 7);
    let r = Rect::from(Size::new(3, 4));
    assert_eq!(r.pos.x, 0);
    assert_eq!(r.size.height, 4);
    let r: Rect = (Pos::new(1, 2), Size::new(3, 4)).into();
    assert_eq!(r.pos.y, 2);
    assert_eq!(r.size.width, 3);
}
