//! Coordinate and region primitives: positions, sizes, and rectangles.
//!
//! All coordinates are unsigned with the origin at the top left. Signed
//! adjustments (`translate`, `expand`, `grow`) clamp instead of wrapping, so
//! a region can never acquire a negative origin or a negative extent.

use vstd::prelude::*;

verus! {

/// A coordinate position on the screen grid. `x` grows to the right and
/// `y` grows downward.
#[derive(Clone, Copy, Debug)]
pub struct Pos {
    pub x: usize,
    pub y: usize,
}

impl Pos {
    /// Build a position from its two coordinates.
    pub fn new(x: usize, y: usize) -> (r: Pos)
        ensures
            r.x == x,
            r.y == y,
    {
        Pos { x, y }
    }
}

impl From<(usize, usize)> for Pos {
    /// Build a position from an `(x, y)` pair.
    fn from(value: (usize, usize)) -> Pos {
        Pos { x: value.0, y: value.1 }
    }
}

impl vstd::std_specs::convert::FromSpecImpl<(usize, usize)> for Pos {
    open spec fn obeys_from_spec() -> bool {
        true
    }

    open spec fn from_spec(t: (usize, usize)) -> Pos {
        Pos { x: t.0, y: t.1 }
    }
}

impl From<usize> for Pos {
    /// Broadcast a single scalar to both coordinates.
    fn from(value: usize) -> Pos {
        Pos { x: value, y: value }
    }
}

impl vstd::std_specs::convert::FromSpecImpl<usize> for Pos {
    open spec fn obeys_from_spec() -> bool {
        true
    }

    open spec fn from_spec(t: usize) -> Pos {
        Pos { x: t, y: t }
    }
}

/// The extent of a rectangular area, in columns (`width`) and rows
/// (`height`).
#[derive(Clone, Copy, Debug)]
pub struct Size {
    pub width: usize,
    pub height: usize,
}

impl Size {
    /// Build a size from a width and a height.
    pub fn new(width: usize, height: usize) -> (r: Size)
        ensures
            r.width == width,
            r.height == height,
    {
        Size { width, height }
    }

    /// Grow (or, with a negative delta, shrink) both axes by the same signed
    /// amount. The result is clamped to the representable range on both
    /// ends, so shrinking below zero yields a zero extent.
    pub fn grow(self, delta: i32) -> (r: Size)
        ensures
            r.width == clamp_shift(self.width as int, delta as int),
            r.height == clamp_shift(self.height as int, delta as int),
    {
        Size { width: shift_clamped(self.width, delta, 0), height: shift_clamped(self.height, delta, 0) }
    }
}

impl From<(usize, usize)> for Size {
    /// Build a size from a `(width, height)` pair.
    fn from(value: (usize, usize)) -> Size {
        Size { width: value.0, height: value.1 }
    }
}

impl vstd::std_specs::convert::FromSpecImpl<(usize, usize)> for Size {
    open spec fn obeys_from_spec() -> bool {
        true
    }

    open spec fn from_spec(t: (usize, usize)) -> Size {
        Size { width: t.0, height: t.1 }
    }
}

impl From<(u16, u16)> for Size {
    /// Build a size from a `(columns, rows)` pair as a terminal reports
    /// it.
    fn from(value: (u16, u16)) -> Size {
        Size { width: value.0 as usize, height: value.1 as usize }
    }
}

impl vstd::std_specs::convert::FromSpecImpl<(u16, u16)> for Size {
    open spec fn obeys_from_spec() -> bool {
        true
    }

    open spec fn from_spec(t: (u16, u16)) -> Size {
        Size { width: t.0 as usize, height: t.1 as usize }
    }
}

impl From<usize> for Size {
    /// Broadcast a single scalar to both axes.
    fn from(value: usize) -> Size {
        Size { width: value, height: value }
    }
}

impl vstd::std_specs::convert::FromSpecImpl<usize> for Size {
    open spec fn obeys_from_spec() -> bool {
        true
    }

    open spec fn from_spec(t: usize) -> Size {
        Size { width: t, height: t }
    }
}

/// `v + delta` confined to `[0, usize::MAX]`.
pub open spec fn clamp_shift(v: int, delta: int) -> int {
    clamp_shift_low(v, delta, 0)
}

/// `v + delta` confined to `[low, usize::MAX]`.
pub open spec fn clamp_shift_low(v: int, delta: int, low: int) -> int {
    if v + delta < low {
        low
    } else if v + delta > usize::MAX as int {
        usize::MAX as int
    } else {
        v + delta
    }
}

/// Add a signed delta to an unsigned coordinate, clamping the result to
/// `[low, usize::MAX]`.
fn shift_clamped(v: usize, delta: i32, low: usize) -> (r: usize)
    requires
        low <= i32::MAX,
    ensures
        r == clamp_shift_low(v as int, delta as int, low as int),
{
    if delta >= 0 {
        let d = delta as usize;
        if v <= usize::MAX - d {
            if v + d < low {
                low
            } else {
                v + d
            }
        } else {
            usize::MAX
        }
    } else {
        let d = (-(delta as i64)) as usize;
        if v >= d && v - d >= low {
            v - d
        } else {
            low
        }
    }
}

/// A rectangular area of the screen: a top-left corner and an extent.
#[derive(Clone, Copy, Debug)]
pub struct Rect {
    pub pos: Pos,
    pub size: Size,
}

impl Rect {
    /// Build a rectangle from a corner position and a size.
    pub fn new(pos: Pos, size: Size) -> (r: Rect)
        ensures
            r.pos == pos,
            r.size == size,
    {
        Rect { pos, size }
    }

    /// The empty rectangle at the origin.
    pub fn zero() -> (r: Rect)
        ensures
            r.pos.x == 0 && r.pos.y == 0,
            r.size.width == 0 && r.size.height == 0,
    {
        Rect { pos: Pos { x: 0, y: 0 }, size: Size { width: 0, height: 0 } }
    }

    /// A rectangle of the given size whose corner is the origin.
    pub fn with_size(size: Size) -> (r: Rect)
        ensures
            r.pos.x == 0 && r.pos.y == 0,
            r.size == size,
    {
        Rect { pos: Pos { x: 0, y: 0 }, size }
    }

    /// Move the corner by a signed offset on each axis without changing the
    /// size. The new corner is clamped at zero.
    pub fn translate(&mut self, x: i32, y: i32)
        ensures
            final(self).pos.x == clamp_shift(old(self).pos.x as int, x as int),
            final(self).pos.y == clamp_shift(old(self).pos.y as int, y as int),
            final(self).size == old(self).size,
    {
        self.pos.x = shift_clamped(self.pos.x, x, 0);
        self.pos.y = shift_clamped(self.pos.y, y, 0);
    }

    /// Change the size by a signed amount on each axis without moving the
    /// corner. Each extent is clamped at one, so the region stays non-empty.
    pub fn expand(&mut self, width: i32, height: i32)
        ensures
            final(self).size.width == clamp_shift_low(old(self).size.width as int, width as int, 1),
            final(self).size.height == clamp_shift_low(old(self).size.height as int, height as int, 1),
            final(self).pos == old(self).pos,
    {
        self.size.width = shift_clamped(self.size.width, width, 1);
        self.size.height = shift_clamped(self.size.height, height, 1);
    }
}

impl From<Size> for Rect {
    /// A rectangle of the given size whose corner is the origin.
    fn from(value: Size) -> Rect {
        Rect { pos: Pos { x: 0, y: 0 }, size: value }
    }
}

impl vstd::std_specs::convert::FromSpecImpl<Size> for Rect {
    open spec fn obeys_from_spec() -> bool {
        true
    }

    open spec fn from_spec(t: Size) -> Rect {
        Rect { pos: Pos { x: 0, y: 0 }, size: t }
    }
}

impl From<(Pos, Size)> for Rect {
    /// Build a rectangle from a corner position and a size.
    fn from(value: (Pos, Size)) -> Rect {
        Rect { pos: value.0, size: value.1 }
    }
}

impl vstd::std_specs::convert::FromSpecImpl<(Pos, Size)> for Rect {
    open spec fn obeys_from_spec() -> bool {
        true
    }

    open spec fn from_spec(t: (Pos, Size)) -> Rect {
        Rect { pos: t.0, size: t.1 }
    }
}

} // verus!
