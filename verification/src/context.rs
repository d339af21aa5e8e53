//! The drawing context: the recursive composition unit of the toolkit.
//!
//! A [`ViewContext`] owns the canvas for one region, shares a reference to
//! the registry, and carries the rerender flag. Its central operation is
//! [`ViewContext::component`]: render a component function into a fresh
//! child context sized to its rectangle, then composite the child's canvas
//! onto this one. A child starts from an all-empty canvas of exactly its
//! own size, so a component can never observe the parent's content nor
//! draw outside its assigned region.

use vstd::prelude::*;
use std::rc::Rc;
use crate::canvas::Canvas;
use crate::canvas::apply_grid;
use crate::canvas::empty_grid;
use crate::canvas::fill_grid;
use crate::canvas::insert_grid;
use crate::container::Container;
use crate::container::FromContainer;
use crate::container::rc_as_ref;
use crate::container::rc_clone;
use crate::geometry::Pos;
use crate::geometry::Rect;
use crate::geometry::Size;
use crate::runes::Rune;
use crate::runes::Runes;

verus! {

/// The display context for one region: an owned canvas, a shared
/// reference to the registry, and the flag with which a component can
/// request that the whole tree be rendered again before presenting.
pub struct ViewContext {
    pub view: Canvas,
    pub container: Rc<Container>,
    pub rerender: bool,
}

/// A renderable: anything that can be invoked as a component function,
/// taking the drawing context for its region plus a tuple of arguments
/// resolved from the registry. It is implemented for plain functions and
/// closures of every supported arity, and by [`crate::stack::Stack`].
pub trait Callable<Args>: Sized {
    /// What must hold of the context and arguments for the call to be
    /// admissible.
    spec fn pre(&self, view: ViewContext, args: Args) -> bool;

    /// What the call promises of the context it returns.
    spec fn post(&self, view: ViewContext, args: Args, out: ViewContext) -> bool;

    /// Render into the given context and hand it back.
    fn call(&self, view: ViewContext, args: Args) -> (out: ViewContext)
        requires
            self.pre(view, args),
        ensures
            self.post(view, args, out),
    ;
}

impl<F: Fn(ViewContext) -> ViewContext> Callable<()> for F {
    open spec fn pre(&self, view: ViewContext, args: ()) -> bool {
        call_requires(*self, (view,))
    }

    open spec fn post(&self, view: ViewContext, args: (), out: ViewContext) -> bool {
        call_ensures(*self, (view,), out)
    }

    fn call(&self, view: ViewContext, args: ()) -> (out: ViewContext) {
        (self)(view)
    }
}

impl<A, F: Fn(ViewContext, A) -> ViewContext> Callable<(A,)> for F {
    open spec fn pre(&self, view: ViewContext, args: (A,)) -> bool {
        call_requires(*self, (view, args.0))
    }

    open spec fn post(&self, view: ViewContext, args: (A,), out: ViewContext) -> bool {
        call_ensures(*self, (view, args.0), out)
    }

    fn call(&self, view: ViewContext, args: (A,)) -> (out: ViewContext) {
        let (a,) = args;
        (self)(view, a)
    }
}

impl<A1, A2, F: Fn(ViewContext, A1, A2) -> ViewContext> Callable<(A1, A2)> for F {
    open spec fn pre(&self, view: ViewContext, args: (A1, A2)) -> bool {
        call_requires(*self, (view, args.0, args.1))
    }

    open spec fn post(&self, view: ViewContext, args: (A1, A2), out: ViewContext) -> bool {
        call_ensures(*self, (view, args.0, args.1), out)
    }

    fn call(&self, view: ViewContext, args: (A1, A2)) -> (out: ViewContext) {
        let (a0, a1) = args;
        (self)(view, a0, a1)
    }
}

impl<A1, A2, A3, F: Fn(ViewContext, A1, A2, A3) -> ViewContext> Callable<(A1, A2, A3)> for F {
    open spec fn pre(&self, view: ViewContext, args: (A1, A2, A3)) -> bool {
        call_requires(*self, (view, args.0, args.1, args.2))
    }

    open spec fn post(&self, view: ViewContext, args: (A1, A2, A3), out: ViewContext) -> bool {
        call_ensures(*self, (view, args.0, args.1, args.2), out)
    }

    fn call(&self, view: ViewContext, args: (A1, A2, A3)) -> (out: ViewContext) {
        let (a0, a1, a2) = args;
        (self)(view, a0, a1, a2)
    }
}

impl<A1, A2, A3, A4, F: Fn(ViewContext, A1, A2, A3, A4) -> ViewContext> Callable<(A1, A2, A3, A4)> for F {
    open spec fn pre(&self, view: ViewContext, args: (A1, A2, A3, A4)) -> bool {
        call_requires(*self, (view, args.0, args.1, args.2, args.3))
    }

    open spec fn post(&self, view: ViewContext, args: (A1, A2, A3, A4), out: ViewContext) -> bool {
        call_ensures(*self, (view, args.0, args.1, args.2, args.3), out)
    }

    fn call(&self, view: ViewContext, args: (A1, A2, A3, A4)) -> (out: ViewContext) {
        let (a0, a1, a2, a3) = args;
        (self)(view, a0, a1, a2, a3)
    }
}

impl<A1, A2, A3, A4, A5, F: Fn(ViewContext, A1, A2, A3, A4, A5) -> ViewContext> Callable<(A1, A2, A3, A4, A5)> for F {
    open spec fn pre(&self, view: ViewContext, args: (A1, A2, A3, A4, A5)) -> bool {
        call_requires(*self, (view, args.0, args.1, args.2, args.3, args.4))
    }

    open spec fn post(&self, view: ViewContext, args: (A1, A2, A3, A4, A5), out: ViewContext) -> bool {
        call_ensures(*self, (view, args.0, args.1, args.2, args.3, args.4), out)
    }

    fn call(&self, view: ViewContext, args: (A1, A2, A3, A4, A5)) -> (out: ViewContext) {
        let (a0, a1, a2, a3, a4) = args;
        (self)(view, a0, a1, a2, a3, a4)
    }
}

impl<A1, A2, A3, A4, A5, A6, F: Fn(ViewContext, A1, A2, A3, A4, A5, A6) -> ViewContext> Callable<(A1, A2, A3, A4, A5, A6)> for F {
    open spec fn pre(&self, view: ViewContext, args: (A1, A2, A3, A4, A5, A6)) -> bool {
        call_requires(*self, (view, args.0, args.1, args.2, args.3, args.4, args.5))
    }

    open spec fn post(&self, view: ViewContext, args: (A1, A2, A3, A4, A5, A6), out: ViewContext) -> bool {
        call_ensures(*self, (view, args.0, args.1, args.2, args.3, args.4, args.5), out)
    }

    fn call(&self, view: ViewContext, args: (A1, A2, A3, A4, A5, A6)) -> (out: ViewContext) {
        let (a0, a1, a2, a3, a4, a5) = args;
        (self)(view, a0, a1, a2, a3, a4, a5)
    }
}

impl<A1, A2, A3, A4, A5, A6, A7, F: Fn(ViewContext, A1, A2, A3, A4, A5, A6, A7) -> ViewContext> Callable<(A1, A2, A3, A4, A5, A6, A7)> for F {
    open spec fn pre(&self, view: ViewContext, args: (A1, A2, A3, A4, A5, A6, A7)) -> bool {
        call_requires(*self, (view, args.0, args.1, args.2, args.3, args.4, args.5, args.6))
    }

    open spec fn post(&self, view: ViewContext, args: (A1, A2, A3, A4, A5, A6, A7), out: ViewContext) -> bool {
        call_ensures(*self, (view, args.0, args.1, args.2, args.3, args.4, args.5, args.6), out)
    }

    fn call(&self, view: ViewContext, args: (A1, A2, A3, A4, A5, A6, A7)) -> (out: ViewContext) {
        let (a0, a1, a2, a3, a4, a5, a6) = args;
        (self)(view, a0, a1, a2, a3, a4, a5, a6)
    }
}

impl<A1, A2, A3, A4, A5, A6, A7, A8, F: Fn(ViewContext, A1, A2, A3, A4, A5, A6, A7, A8) -> ViewContext> Callable<(A1, A2, A3, A4, A5, A6, A7, A8)> for F {
    open spec fn pre(&self, view: ViewContext, args: (A1, A2, A3, A4, A5, A6, A7, A8)) -> bool {
        call_requires(*self, (view, args.0, args.1, args.2, args.3, args.4, args.5, args.6, args.7))
    }

    open spec fn post(&self, view: ViewContext, args: (A1, A2, A3, A4, A5, A6, A7, A8), out: ViewContext) -> bool {
        call_ensures(*self, (view, args.0, args.1, args.2, args.3, args.4, args.5, args.6, args.7), out)
    }

    fn call(&self, view: ViewContext, args: (A1, A2, A3, A4, A5, A6, A7, A8)) -> (out: ViewContext) {
        let (a0, a1, a2, a3, a4, a5, a6, a7) = args;
        (self)(view, a0, a1, a2, a3, a4, a5, a6, a7)
    }
}

impl<A1, A2, A3, A4, A5, A6, A7, A8, A9, F: Fn(ViewContext, A1, A2, A3, A4, A5, A6, A7, A8, A9) -> ViewContext> Callable<(A1, A2, A3, A4, A5, A6, A7, A8, A9)> for F {
    open spec fn pre(&self, view: ViewContext, args: (A1, A2, A3, A4, A5, A6, A7, A8, A9)) -> bool {
        call_requires(*self, (view, args.0, args.1, args.2, args.3, args.4, args.5, args.6, args.7, args.8))
    }

    open spec fn post(&self, view: ViewContext, args: (A1, A2, A3, A4, A5, A6, A7, A8, A9), out: ViewContext) -> bool {
        call_ensures(*self, (view, args.0, args.1, args.2, args.3, args.4, args.5, args.6, args.7, args.8), out)
    }

    fn call(&self, view: ViewContext, args: (A1, A2, A3, A4, A5, A6, A7, A8, A9)) -> (out: ViewContext) {
        let (a0, a1, a2, a3, a4, a5, a6, a7, a8) = args;
        (self)(view, a0, a1, a2, a3, a4, a5, a6, a7, a8)
    }
}

impl<A1, A2, A3, A4, A5, A6, A7, A8, A9, A10, F: Fn(ViewContext, A1, A2, A3, A4, A5, A6, A7, A8, A9, A10) -> ViewContext> Callable<(A1, A2, A3, A4, A5, A6, A7, A8, A9, A10)> for F {
    open spec fn pre(&self, view: ViewContext, args: (A1, A2, A3, A4, A5, A6, A7, A8, A9, A10)) -> bool {
        call_requires(*self, (view, args.0, args.1, args.2, args.3, args.4, args.5, args.6, args.7, args.8, args.9))
    }

    open spec fn post(&self, view: ViewContext, args: (A1, A2, A3, A4, A5, A6, A7, A8, A9, A10), out: ViewContext) -> bool {
        call_ensures(*self, (view, args.0, args.1, args.2, args.3, args.4, args.5, args.6, args.7, args.8, args.9), out)
    }

    fn call(&self, view: ViewContext, args: (A1, A2, A3, A4, A5, A6, A7, A8, A9, A10)) -> (out: ViewContext) {
        let (a0, a1, a2, a3, a4, a5, a6, a7, a8, a9) = args;
        (self)(view, a0, a1, a2, a3, a4, a5, a6, a7, a8, a9)
    }
}

impl<A1, A2, A3, A4, A5, A6, A7, A8, A9, A10, A11, F: Fn(ViewContext, A1, A2, A3, A4, A5, A6, A7, A8, A9, A10, A11) -> ViewContext> Callable<(A1, A2, A3, A4, A5, A6, A7, A8, A9, A10, A11)> for F {
    open spec fn pre(&self, view: ViewContext, args: (A1, A2, A3, A4, A5, A6, A7, A8, A9, A10, A11)) -> bool {
        call_requires(*self, (view, args.0, args.1, args.2, args.3, args.4, args.5, args.6, args.7, args.8, args.9, args.10))
    }

    open spec fn post(&self, view: ViewContext, args: (A1, A2, A3, A4, A5, A6, A7, A8, A9, A10, A11), out: ViewContext) -> bool {
        call_ensures(*self, (view, args.0, args.1, args.2, args.3, args.4, args.5, args.6, args.7, args.8, args.9, args.10), out)
    }

    fn call(&self, view: ViewContext, args: (A1, A2, A3, A4, A5, A6, A7, A8, A9, A10, A11)) -> (out: ViewContext) {
        let (a0, a1, a2, a3, a4, a5, a6, a7, a8, a9, a10) = args;
        (self)(view, a0, a1, a2, a3, a4, a5, a6, a7, a8, a9, a10)
    }
}

impl<A1, A2, A3, A4, A5, A6, A7, A8, A9, A10, A11, A12, F: Fn(ViewContext, A1, A2, A3, A4, A5, A6, A7, A8, A9, A10, A11, A12) -> ViewContext> Callable<(A1, A2, A3, A4, A5, A6, A7, A8, A9, A10, A11, A12)> for F {
    open spec fn pre(&self, view: ViewContext, args: (A1, A2, A3, A4, A5, A6, A7, A8, A9, A10, A11, A12)) -> bool {
        call_requires(*self, (view, args.0, args.1, args.2, args.3, args.4, args.5, args.6, args.7, args.8, args.9, args.10, args.11))
    }

    open spec fn post(&self, view: ViewContext, args: (A1, A2, A3, A4, A5, A6, A7, A8, A9, A10, A11, A12), out: ViewContext) -> bool {
        call_ensures(*self, (view, args.0, args.1, args.2, args.3, args.4, args.5, args.6, args.7, args.8, args.9, args.10, args.11), out)
    }

    fn call(&self, view: ViewContext, args: (A1, A2, A3, A4, A5, A6, A7, A8, A9, A10, A11, A12)) -> (out: ViewContext) {
        let (a0, a1, a2, a3, a4, a5, a6, a7, a8, a9, a10, a11) = args;
        (self)(view, a0, a1, a2, a3, a4, a5, a6, a7, a8, a9, a10, a11)
    }
}

/// A stateful renderable: a widget renders itself into the drawing
/// context for its region. Applications implement it for types that
/// carry their own state rather than resolving it from the registry.
pub trait Widget {
    /// Draw this widget into the given context.
    fn ui(&mut self, ctx: &mut ViewContext);
}

impl Container {
    /// The registry's render entry point: resolve the function's argument
    /// tuple against this registry and invoke it with the given drawing
    /// context. This is what the layer driving the render loop uses to
    /// evaluate the root component each frame.
    ///
    /// Returns `None` when an argument type was never bound; the caller
    /// is expected to abort the render rather than present a broken tree.
    pub fn call<Args: FromContainer, F: Callable<Args>>(&self, view: &mut ViewContext, f: &F) -> (
        ok: bool)
        requires
            forall|a: Args| #[trigger] f.pre(*old(view), a),
        ensures
            Args::always_resolves() ==> ok,
            !ok ==> *final(view) == *old(view),
            ok ==> exists|a: Args| #[trigger] f.post(*old(view), a, *final(view)),
    {
        let args = match Args::from_container(self) {
            Some(a) => a,
            None => {
                return false;
            },
        };
        let mut owned = ViewContext::new(
            rc_clone(&view.container),
            Size { width: 0, height: 0 },
        );
        core::mem::swap(view, &mut owned);
        *view = f.call(owned, args);
        true
    }
}

impl ViewContext {
    /// A fresh context for a region of the given size: an all-empty canvas,
    /// the shared registry reference, and the rerender flag cleared.
    pub fn new(container: Rc<Container>, size: Size) -> (r: ViewContext)
        ensures
            r.view.grid() == empty_grid(size),
            r.container == container,
            r.rerender == false,
    {
        ViewContext { view: Canvas::new(size), container, rerender: false }
    }

    /// Ask the application to render the whole tree again after this pass:
    /// a state change made here may affect how an already-rendered part of
    /// the tree should look.
    pub fn render(&mut self)
        ensures
            final(self).rerender == true,
            final(self).view == old(self).view,
            final(self).container == old(self).container,
    {
        self.rerender = true;
    }

    /// Render a component function into a fresh child context of size
    /// `rect.size`, resolving its arguments from the registry, then
    /// composite the child's canvas here at `rect.pos` and fold the
    /// child's rerender request into this context's flag.
    ///
    /// Returns false, leaving this context untouched, when an argument
    /// type was never bound in the registry; a missing binding is a
    /// programmer error, and the layer driving the render loop aborts on
    /// it rather than present a broken tree.
    pub fn component<Args: FromContainer, F: Callable<Args>>(&mut self, rect: Rect, f: F) -> (ok:
        bool)
        requires
            forall|child: ViewContext, a: Args|
                (child.view.grid() == empty_grid(rect.size)
                    && child.container == old(self).container
                    && child.rerender == false) ==> #[trigger] f.pre(child, a),
        ensures
            Args::always_resolves() ==> ok,
            !ok ==> *final(self) == *old(self),
            ok ==> exists|child: ViewContext, a: Args, out: ViewContext|
                {
                    &&& child.view.grid() == empty_grid(rect.size)
                    &&& child.container == old(self).container
                    &&& child.rerender == false
                    &&& #[trigger] f.post(child, a, out)
                    &&& final(self).view.grid() == apply_grid(
                        old(self).view.grid(),
                        rect.pos,
                        out.view.grid(),
                    )
                    &&& final(self).rerender == (old(self).rerender || out.rerender)
                    &&& final(self).container == old(self).container
                },
    {
        let args = match Args::from_container(rc_as_ref(&self.container)) {
            Some(a) => a,
            None => {
                return false;
            },
        };
        let child = ViewContext::new(rc_clone(&self.container), rect.size);
        let out = f.call(child, args);
        self.view.apply(rect.pos, &out.view);
        self.rerender = self.rerender || out.rerender;
        true
    }

    /// [`ViewContext::component`] for a plain rendering function that
    /// takes no injected arguments. Its contract is phrased directly over
    /// the function value's own pre- and postcondition, so a verified
    /// caller at a concrete call site can discharge it without going
    /// through the [`Callable`] spec; and with nothing to resolve, the
    /// mount always succeeds.
    pub fn component_fn<F: Fn(ViewContext) -> ViewContext>(&mut self, rect: Rect, f: F)
        requires
            forall|child: ViewContext|
                (child.view.grid() == empty_grid(rect.size)
                    && child.container == old(self).container
                    && child.rerender == false) ==> #[trigger] call_requires(f, (child,)),
        ensures
            exists|child: ViewContext, out: ViewContext|
                {
                    &&& child.view.grid() == empty_grid(rect.size)
                    &&& child.container == old(self).container
                    &&& child.rerender == false
                    &&& #[trigger] call_ensures(f, (child,), out)
                    &&& final(self).view.grid() == apply_grid(
                        old(self).view.grid(),
                        rect.pos,
                        out.view.grid(),
                    )
                    &&& final(self).rerender == (old(self).rerender || out.rerender)
                    &&& final(self).container == old(self).container
                },
    {
        let ok = self.component(rect, f);
        proof {
            assert(ok);
        }
    }

    /// Set a single cell of this context's canvas, in the context's local
    /// coordinate space; a position outside the region is a no-op.
    pub fn set_rune(&mut self, pos: Pos, rune: Rune)
        ensures
            final(self).container == old(self).container,
            final(self).rerender == old(self).rerender,
            final(self).view.grid().len() == old(self).view.grid().len(),
            forall|r: int|
                0 <= r < old(self).view.grid().len() && r != pos.y
                    ==> #[trigger] final(self).view.grid()[r] == old(self).view.grid()[r],
            pos.y < old(self).view.grid().len() ==> final(self).view.grid()[pos.y as int] == (
            if pos.x < old(self).view.grid()[pos.y as int].len() {
                old(self).view.grid()[pos.y as int].update(pos.x as int, rune)
            } else {
                old(self).view.grid()[pos.y as int]
            }),
    {
        self.view.put(pos, rune);
    }

    /// Compose a run of cells onto this context's canvas; see
    /// [`Canvas::insert`].
    pub fn insert(&mut self, pos: Pos, value: Runes)
        ensures
            final(self).view.grid() == insert_grid(old(self).view.grid(), pos, value.0@),
            final(self).container == old(self).container,
            final(self).rerender == old(self).rerender,
    {
        self.view.insert(pos, value);
    }

    /// Compose one rune over a region of this context's canvas; see
    /// [`Canvas::fill`].
    pub fn fill(&mut self, rect: Rect, rune: Rune)
        ensures
            final(self).view.grid() == fill_grid(old(self).view.grid(), rect, rune),
            final(self).container == old(self).container,
            final(self).rerender == old(self).rerender,
    {
        self.view.fill(rect, rune);
    }

    /// Compose one rune over the whole region; see [`Canvas::fill_all`].
    pub fn fill_all(&mut self, rune: Rune)
        ensures
            final(self).view.grid() == fill_grid(
                old(self).view.grid(),
                (Rect {
                    pos: (Pos { x: 0, y: 0 }),
                    size: (Size {
                        width: old(self).view.spec_width() as usize,
                        height: old(self).view.grid().len() as usize,
                    }),
                }),
                rune,
            ),
            final(self).container == old(self).container,
            final(self).rerender == old(self).rerender,
    {
        self.view.fill_all(rune);
    }

    /// The width of this context's region.
    pub fn width(&self) -> (r: usize)
        ensures
            r == self.view.spec_width(),
    {
        self.view.width()
    }

    /// The height of this context's region.
    pub fn height(&self) -> (r: usize)
        ensures
            r == self.view.grid().len(),
    {
        self.view.height()
    }

    /// The size of this context's region.
    pub fn size(&self) -> (r: Size)
        ensures
            r.width == self.view.spec_width(),
            r.height == self.view.grid().len(),
    {
        self.view.size()
    }
}

} // verus!
