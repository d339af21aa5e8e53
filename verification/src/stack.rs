//! The layout sequencer: places a sequence of children along one axis,
//! aligning each child on the cross axis.
//!
//! A [`Stack`] owns a canvas for its whole region and a cursor. Each
//! insertion places its child at the cursor, offset on the cross axis by
//! the alignment policy, and then advances the cursor along the stack's
//! axis by the child's extent: children follow each other with no overlap
//! and no gap. A fully built stack is itself a renderable and can be
//! mounted with [`crate::context::ViewContext::component`] like any other
//! component; it composites its accumulated canvas at the origin of
//! whatever context mounts it.

use vstd::prelude::*;
use std::rc::Rc;
use crate::canvas::Canvas;
use crate::canvas::apply_grid;
use crate::canvas::empty_grid;
use crate::canvas::insert_grid;
use crate::container::Container;
use crate::container::FromContainer;
use crate::container::rc_as_ref;
use crate::container::rc_clone;
use crate::context::Callable;
use crate::context::ViewContext;
use crate::geometry::Pos;
use crate::geometry::Size;
use crate::runes::Runes;

verus! {

/// Where a child that is narrower than the stack's cross axis is placed
/// on that axis. For a vertical stack the cross axis is the width, and
/// `Top`/`Bottom` mean the same as `Left`; for a horizontal stack the
/// cross axis is the height, and `Left`/`Right` mean the same as `Top`.
#[derive(Clone, Copy, Debug)]
pub enum StackAlignment {
    Left,
    Right,
    Center,
    Top,
    Bottom,
}

/// The axis along which a stack grows.
#[derive(Clone, Copy, Debug)]
pub enum StackDirection {
    Vertical,
    Horizontal,
}

/// The cross-axis offset of a child of extent `child` within a stack of
/// cross-axis extent `total`, for a vertical stack: zero when the child
/// spans the full width, else flush left, flush right, or centered,
/// clamped to zero for a child wider than the stack.
pub open spec fn cross_offset_vertical(align: StackAlignment, total: int, child: int) -> int {
    if child == total {
        0int
    } else {
        match align {
            StackAlignment::Left | StackAlignment::Top | StackAlignment::Bottom => 0int,
            StackAlignment::Right => if child <= total {
                total - child
            } else {
                0int
            },
            StackAlignment::Center => if child <= total {
                (total - child) / 2
            } else {
                0int
            },
        }
    }
}

/// The cross-axis offset for a horizontal stack: zero when the child
/// spans the full height, else flush top, flush bottom, or centered,
/// clamped to zero for a child taller than the stack.
pub open spec fn cross_offset_horizontal(align: StackAlignment, total: int, child: int) -> int {
    if child == total {
        0int
    } else {
        match align {
            StackAlignment::Top | StackAlignment::Left | StackAlignment::Right => 0int,
            StackAlignment::Bottom => if child <= total {
                total - child
            } else {
                0int
            },
            StackAlignment::Center => if child <= total {
                (total - child) / 2
            } else {
                0int
            },
        }
    }
}

/// The position at which a stack places its next child of the given size:
/// the cursor, shifted on the cross axis by the alignment offset.
pub open spec fn placement(
    direction: StackDirection,
    align: StackAlignment,
    stack: Size,
    cursor: Pos,
    child: Size,
) -> Pos {
    match direction {
        StackDirection::Vertical => (Pos {
            x: (cursor.x + cross_offset_vertical(align, stack.width as int, child.width as int)) as usize,
            y: cursor.y,
        }),
        StackDirection::Horizontal => (Pos {
            x: cursor.x,
            y: (cursor.y + cross_offset_horizontal(
                align,
                stack.height as int,
                child.height as int,
            )) as usize,
        }),
    }
}

/// The cursor after a child of the given size: one step along the stack's
/// axis by the child's extent on that axis.
pub open spec fn advanced(direction: StackDirection, cursor: Pos, child: Size) -> Pos {
    match direction {
        StackDirection::Vertical => (Pos { x: cursor.x, y: (cursor.y + child.height) as usize }),
        StackDirection::Horizontal => (Pos { x: (cursor.x + child.width) as usize, y: cursor.y }),
    }
}

/// A layout sequencer: an axis, an owned canvas for the stack's total
/// region, the cursor where the next child will be placed, the cross-axis
/// alignment policy, and a shared registry reference for resolving
/// component arguments.
pub struct Stack {
    pub direction: StackDirection,
    pub container: Rc<Container>,
    pub view: Canvas,
    pub position: Pos,
    pub alignment: StackAlignment,
}

impl Stack {
    /// A fresh stack of the given axis and size, with the cursor at the
    /// origin and alignment flush to the start of the cross axis.
    pub fn new(direction: StackDirection, container: Rc<Container>, size: Size) -> (s: Stack)
        ensures
            s.direction == direction,
            s.container == container,
            s.view.grid() == empty_grid(size),
            s.position == (Pos { x: 0, y: 0 }),
            s.alignment == StackAlignment::Left,
    {
        Stack {
            direction,
            container,
            view: Canvas::new(size),
            position: Pos { x: 0, y: 0 },
            alignment: StackAlignment::Left,
        }
    }

    /// Set the cross-axis alignment for the children placed from now on.
    pub fn alignment(&mut self, alignment: StackAlignment)
        ensures
            final(self).alignment == alignment,
            final(self).direction == old(self).direction,
            final(self).container == old(self).container,
            final(self).view == old(self).view,
            final(self).position == old(self).position,
    {
        self.alignment = alignment;
    }

    /// Place a run of runes as a unit-height (vertical stack) or
    /// unit-width (horizontal stack) child: compose it into the stack's
    /// canvas at the aligned placement position, then advance the cursor
    /// by one row, or by the run's length in columns.
    ///
    /// The preconditions only rule out positions beyond the addressable
    /// coordinate range.
    pub fn insert(&mut self, value: Runes)
        requires
            old(self).position.x + old(self).view.spec_width() <= usize::MAX,
            old(self).position.y + 1 <= usize::MAX,
            old(self).position.x + value.0@.len() <= usize::MAX,
            old(self).position.y + old(self).view.grid().len() <= usize::MAX,
        ensures
            final(self).view.grid() == insert_grid(
                old(self).view.grid(),
                placement(
                    old(self).direction,
                    old(self).alignment,
                    (Size {
                        width: old(self).view.spec_width() as usize,
                        height: old(self).view.grid().len() as usize,
                    }),
                    old(self).position,
                    (Size { width: value.0@.len() as usize, height: 1 }),
                ),
                value.0@,
            ),
            final(self).position == advanced(
                old(self).direction,
                old(self).position,
                (Size { width: value.0@.len() as usize, height: 1 }),
            ),
            final(self).direction == old(self).direction,
            final(self).alignment == old(self).alignment,
            final(self).container == old(self).container,
    {
        let n = value.len();
        let pos = self.place_at(Size { width: n, height: 1 });
        self.view.insert(pos, value);
        self.position = match self.direction {
            StackDirection::Vertical => Pos { x: self.position.x, y: self.position.y + 1 },
            StackDirection::Horizontal => Pos { x: self.position.x + n, y: self.position.y },
        };
    }

    /// Render a component function into a fresh child context of the
    /// given size, resolving its arguments from the registry, and
    /// composite the child's canvas at the aligned placement position;
    /// the cursor advances by the child's full extent along the stack's
    /// axis whether or not the child could be rendered.
    ///
    /// Returns false, leaving the canvas untouched, when an argument type
    /// was never bound in the registry; see
    /// [`crate::context::ViewContext::component`].
    pub fn component<Args: FromContainer, F: Callable<Args>>(&mut self, size: Size, f: F) -> (ok:
        bool)
        requires
            old(self).position.x + old(self).view.spec_width() <= usize::MAX,
            old(self).position.y + old(self).view.grid().len() <= usize::MAX,
            old(self).position.x + size.width <= usize::MAX,
            old(self).position.y + size.height <= usize::MAX,
            forall|child: ViewContext, a: Args|
                (child.view.grid() == empty_grid(size)
                    && child.container == old(self).container
                    && child.rerender == false) ==> #[trigger] f.pre(child, a),
        ensures
            Args::always_resolves() ==> ok,
            final(self).position == advanced(old(self).direction, old(self).position, size),
            final(self).direction == old(self).direction,
            final(self).alignment == old(self).alignment,
            final(self).container == old(self).container,
            !ok ==> final(self).view == old(self).view,
            ok ==> exists|child: ViewContext, a: Args, out: ViewContext|
                {
                    &&& child.view.grid() == empty_grid(size)
                    &&& child.container == old(self).container
                    &&& child.rerender == false
                    &&& #[trigger] f.post(child, a, out)
                    &&& final(self).view.grid() == apply_grid(
                        old(self).view.grid(),
                        placement(
                            old(self).direction,
                            old(self).alignment,
                            (Size {
                                width: old(self).view.spec_width() as usize,
                                height: old(self).view.grid().len() as usize,
                            }),
                            old(self).position,
                            size,
                        ),
                        out.view.grid(),
                    )
                },
    {
        let pos = self.place_at(size);
        let ok = match Args::from_container(rc_as_ref(&self.container)) {
            Some(args) => {
                let child = ViewContext::new(rc_clone(&self.container), size);
                let out = f.call(child, args);
                self.view.apply(pos, &out.view);
                true
            },
            None => false,
        };
        self.position = match self.direction {
            StackDirection::Vertical => Pos {
                x: self.position.x,
                y: self.position.y + size.height,
            },
            StackDirection::Horizontal => Pos {
                x: self.position.x + size.width,
                y: self.position.y,
            },
        };
        ok
    }

    /// [`Stack::component`] for a plain rendering function that takes no
    /// injected arguments: the contract is phrased over the function
    /// value's own pre- and postcondition, and the mount always succeeds.
    pub fn component_fn<F: Fn(ViewContext) -> ViewContext>(&mut self, size: Size, f: F)
        requires
            old(self).position.x + old(self).view.spec_width() <= usize::MAX,
            old(self).position.y + old(self).view.grid().len() <= usize::MAX,
            old(self).position.x + size.width <= usize::MAX,
            old(self).position.y + size.height <= usize::MAX,
            forall|child: ViewContext|
                (child.view.grid() == empty_grid(size)
                    && child.container == old(self).container
                    && child.rerender == false) ==> #[trigger] call_requires(f, (child,)),
        ensures
            final(self).position == advanced(old(self).direction, old(self).position, size),
            final(self).direction == old(self).direction,
            final(self).alignment == old(self).alignment,
            final(self).container == old(self).container,
            exists|child: ViewContext, out: ViewContext|
                {
                    &&& child.view.grid() == empty_grid(size)
                    &&& child.container == old(self).container
                    &&& child.rerender == false
                    &&& #[trigger] call_ensures(f, (child,), out)
                    &&& final(self).view.grid() == apply_grid(
                        old(self).view.grid(),
                        placement(
                            old(self).direction,
                            old(self).alignment,
                            (Size {
                                width: old(self).view.spec_width() as usize,
                                height: old(self).view.grid().len() as usize,
                            }),
                            old(self).position,
                            size,
                        ),
                        out.view.grid(),
                    )
                },
    {
        let ok = self.component(size, f);
        proof {
            assert(ok);
        }
    }

    /// The aligned position for the next child of the given size.
    fn place_at(&self, child: Size) -> (pos: Pos)
        requires
            self.position.x + self.view.spec_width() <= usize::MAX,
            self.position.y + self.view.grid().len() <= usize::MAX,
        ensures
            pos == placement(
                self.direction,
                self.alignment,
                (Size {
                    width: self.view.spec_width() as usize,
                    height: self.view.grid().len() as usize,
                }),
                self.position,
                child,
            ),
    {
        match self.direction {
            StackDirection::Vertical => {
                let total = self.view.width();
                let off = if child.width == total {
                    0
                } else {
                    match self.alignment {
                        StackAlignment::Left | StackAlignment::Top | StackAlignment::Bottom => 0,
                        StackAlignment::Right => if child.width <= total {
                            total - child.width
                        } else {
                            0
                        },
                        StackAlignment::Center => if child.width <= total {
                            (total - child.width) / 2
                        } else {
                            0
                        },
                    }
                };
                Pos { x: self.position.x + off, y: self.position.y }
            },
            StackDirection::Horizontal => {
                let total = self.view.height();
                let off = if child.height == total {
                    0
                } else {
                    match self.alignment {
                        StackAlignment::Top | StackAlignment::Left | StackAlignment::Right => 0,
                        StackAlignment::Bottom => if child.height <= total {
                            total - child.height
                        } else {
                            0
                        },
                        StackAlignment::Center => if child.height <= total {
                            (total - child.height) / 2
                        } else {
                            0
                        },
                    }
                };
                Pos { x: self.position.x, y: self.position.y + off }
            },
        }
    }
}

impl Callable<()> for Stack {
    open spec fn pre(&self, view: ViewContext, args: ()) -> bool {
        true
    }

    open spec fn post(&self, view: ViewContext, args: (), out: ViewContext) -> bool {
        &&& out.view.grid() == apply_grid(view.view.grid(), (Pos { x: 0, y: 0 }), self.view.grid())
        &&& out.container == view.container
        &&& out.rerender == view.rerender
    }

    /// Composite the stack's accumulated canvas at the origin of the
    /// mounting context.
    fn call(&self, view: ViewContext, args: ()) -> (out: ViewContext) {
        let mut out = view;
        out.view.apply(Pos { x: 0, y: 0 }, &self.view);
        out
    }
}

impl ViewContext {
    /// A vertical stack of the given size, sharing this context's
    /// registry.
    pub fn vertical_stack(&self, size: Size) -> (s: Stack)
        ensures
            s.direction == StackDirection::Vertical,
            s.container == self.container,
            s.view.grid() == empty_grid(size),
            s.position == (Pos { x: 0, y: 0 }),
            s.alignment == StackAlignment::Left,
    {
        Stack::new(StackDirection::Vertical, rc_clone(&self.container), size)
    }

    /// A horizontal stack of the given size, sharing this context's
    /// registry.
    pub fn horizontal_stack(&self, size: Size) -> (s: Stack)
        ensures
            s.direction == StackDirection::Horizontal,
            s.container == self.container,
            s.view.grid() == empty_grid(size),
            s.position == (Pos { x: 0, y: 0 }),
            s.alignment == StackAlignment::Left,
    {
        Stack::new(StackDirection::Horizontal, rc_clone(&self.container), size)
    }
}

} // verus!
