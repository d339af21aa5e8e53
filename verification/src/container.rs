//! The type-keyed registry of injectable values, and the handle types that
//! component functions receive from it.
//!
//! A [`Container`] maps a runtime type identity to at most one value of
//! that type; binding a second value of the same type replaces the first.
//! Values are stored and retrieved through std's type-erasure facility
//! (`TypeId` keys over `Any` boxes), which Verus cannot look inside, so the
//! store itself is a trusted boundary with deliberately weak contracts:
//! everything proved about rendering holds whatever the store returns.
//!
//! [`Res`] is a shared read-only handle and [`State`] a shared handle with
//! runtime-checked exclusive-or-shared access; both are what applications
//! bind into the container and what component functions request.

use vstd::prelude::*;
use std::rc::Rc;
use std::cell::Ref;
use std::cell::RefCell;
use std::cell::RefMut;

verus! {

/// Clone a reference-counted pointer.
/// Relies on `Rc::clone`, which is documented to share the allocation, so
/// the clone is a pointer to the same value.
#[verifier::external_body]
pub(crate) fn rc_clone<T>(rc: &Rc<T>) -> (r: Rc<T>)
    ensures
        r == *rc,
{
    Rc::clone(rc)
}

/// A type-keyed store of injectable singletons. At most one value is held
/// per concrete type; a later bind for the same type replaces the earlier
/// one. The store is created once, populated before the first render, and
/// only read while a frame renders.
///
/// The struct body is hidden from the verifier: it is a
/// `HashMap<TypeId, Box<dyn Any>>`, and a boxed `dyn Any` value cannot be
/// declared to Verus. All access goes through the trusted methods below.
#[verifier::external_body]
pub struct Container {
    bindings: std::collections::HashMap<core::any::TypeId, Box<dyn core::any::Any>>,
}

impl Container {
    /// An empty container with no bindings.
    /// Relies on `HashMap::new`, which returns an empty map.
    #[verifier::external_body]
    pub fn new() -> Container {
        Container { bindings: std::collections::HashMap::new() }
    }

    /// Store `val` under its own concrete type, replacing any earlier value
    /// of that exact type.
    /// Relies on `HashMap::insert` with the key `TypeId::of::<T>()`;
    /// `TypeId::of` is documented to return the same key for the same type
    /// and distinct keys for distinct types.
    #[verifier::external_body]
    pub fn bind<T: 'static>(&mut self, val: T) {
        self.bindings.insert(core::any::TypeId::of::<T>(), Box::new(val));
    }

    /// Look up the value stored under type `T`: the most recently bound
    /// value of that exact type, or `None` if none was ever bound.
    /// Relies on `HashMap::get` with the key `TypeId::of::<T>()`; the
    /// downcast converts the stored `Any` box back to `&T` and cannot fail,
    /// because `bind` stores every value under its own type's key.
    #[verifier::external_body]
    pub fn get<T: 'static>(&self) -> Option<&T> {
        self.bindings.get(&core::any::TypeId::of::<T>()).and_then(|boxed| boxed.downcast_ref())
    }
}

/// A shared, reference-counted, read-only handle to a value bound in the
/// container. Cloning the handle shares the same underlying value.
#[derive(Debug)]
pub struct Res<T>(Rc<T>);

impl<T> View for Res<T> {
    type V = T;

    closed spec fn view(&self) -> T {
        *self.0
    }
}

impl<T> Res<T> {
    /// Wrap a value in a shared read-only handle.
    pub fn new(val: T) -> (r: Res<T>)
        ensures
            r@ == val,
    {
        Res(Rc::new(val))
    }

    /// Borrow the underlying value.
    pub fn get(&self) -> (r: &T)
        ensures
            *r == self@,
    {
        rc_as_ref(&self.0)
    }
}

impl<T> Clone for Res<T> {
    /// The clone is a handle to the same value.
    fn clone(&self) -> (r: Self)
        ensures
            r@ == self@,
    {
        Res(rc_clone(&self.0))
    }
}

/// Borrow the value behind a reference-counted pointer.
/// Relies on `Rc::as_ref`, which returns a reference to the pointed-to
/// value.
#[verifier::external_body]
pub(crate) fn rc_as_ref<T>(rc: &Rc<T>) -> (r: &T)
    ensures
        *r == **rc,
{
    rc.as_ref()
}

/// `core::cell::RefCell`, declared so that it can stand in fields and
/// signatures. Verus sees nothing inside it; every access is a trusted
/// method of [`State`].
#[verifier::external_type_specification]
#[verifier::external_body]
#[verifier::reject_recursive_types(T)]
pub struct ExRefCell<T: ?Sized>(RefCell<T>);

/// `core::cell::Ref`, the shared-view guard returned by `RefCell::borrow`.
#[verifier::external_type_specification]
#[verifier::external_body]
#[verifier::reject_recursive_types(T)]
pub struct ExRef<'b, T: ?Sized>(Ref<'b, T>);

/// `core::cell::RefMut`, the write-view guard returned by
/// `RefCell::borrow_mut`.
#[verifier::external_type_specification]
#[verifier::external_body]
#[verifier::reject_recursive_types(T)]
pub struct ExRefMut<'b, T: ?Sized + 'b>(RefMut<'b, T>);

/// Build a runtime-borrow-checked cell around a value.
/// Relies on `RefCell::new`, which wraps the value.
#[verifier::external_body]
fn refcell_new<T>(val: T) -> RefCell<T> {
    RefCell::new(val)
}

/// A shared handle to a mutable value. Callers check out either a read
/// view or a write view of the underlying value, never both at once for
/// the same underlying value; the check is made at runtime, and a
/// violation aborts rather than hand out a stale or aliased view. Clones
/// of a handle share the same underlying value and contend for the same
/// check.
///
/// The value behind the handle changes through shared aliases, which is
/// exactly what the verifier cannot track, so the view accessors are a
/// trusted boundary: nothing proved in this crate depends on which value
/// sits behind a `State`.
#[verifier::reject_recursive_types(T)]
pub struct State<T>(Rc<RefCell<T>>);

impl<T> State<T> {
    /// Whether the two handles share the same underlying value, and so
    /// contend for the same exclusivity check.
    pub closed spec fn shares_with(&self, other: &State<T>) -> bool {
        self.0 == other.0
    }
    /// Wrap a value in a shared, exclusivity-checked handle.
    pub fn new(val: T) -> State<T> {
        State(Rc::new(refcell_new(val)))
    }

    /// Check out the write view of the underlying value.
    ///
    /// Aborts if any other view of the same underlying value is live, as
    /// `RefCell::borrow_mut` does; this is the fail-fast exclusivity check.
    /// Relies on `RefCell::borrow_mut`.
    #[verifier::external_body]
    pub fn get_mut(&self) -> RefMut<'_, T> {
        RefCell::borrow_mut(&self.0)
    }

    /// Check out the read view of the underlying value.
    ///
    /// Aborts if a write view of the same underlying value is live, as
    /// `RefCell::borrow` does; this is the fail-fast exclusivity check.
    /// Relies on `RefCell::borrow`.
    #[verifier::external_body]
    pub fn get(&self) -> Ref<'_, T> {
        RefCell::borrow(&self.0)
    }

    /// Check out the write view if no other view of the same underlying
    /// value is live; `None` otherwise.
    /// Relies on `RefCell::try_borrow_mut`, which returns `Err` exactly
    /// when another view is live.
    #[verifier::external_body]
    pub fn try_get_mut(&self) -> Option<RefMut<'_, T>> {
        RefCell::try_borrow_mut(&self.0).ok()
    }

    /// Check out the read view if no write view of the same underlying
    /// value is live; `None` otherwise.
    /// Relies on `RefCell::try_borrow`, which returns `Err` exactly when a
    /// write view is live.
    #[verifier::external_body]
    pub fn try_get(&self) -> Option<Ref<'_, T>> {
        RefCell::try_borrow(&self.0).ok()
    }
}

impl<T> Clone for State<T> {
    /// The clone is a handle to the same underlying value and the same
    /// exclusivity check.
    fn clone(&self) -> (r: Self)
        ensures
            r.shares_with(self),
    {
        State(rc_clone(&self.0))
    }
}

/// Resolution of a value from the container, implemented by every type a
/// component function may request: [`Res`], [`State`], the empty tuple,
/// and tuples of up to twelve resolvable types.
///
/// Resolution returns `None` when a requested type was never bound. A
/// missing binding is a programmer error, and the layer that drives
/// rendering is expected to abort on it rather than render a broken tree.
pub trait FromContainer: Sized {
    /// Whether resolution of this type succeeds on every container, no
    /// matter what is bound: true exactly for argument lists that never
    /// touch the store. For such a list a mount is owed success.
    spec fn always_resolves() -> bool;

    /// Resolve this type against the container, or report the missing
    /// binding with `None`.
    fn from_container(container: &Container) -> (r: Option<Self>)
        ensures
            Self::always_resolves() ==> r is Some,
    ;
}

impl<T: 'static> FromContainer for Res<T> {
    /// A resource handle comes out of the store, so nothing guarantees it
    /// is bound.
    open spec fn always_resolves() -> bool {
        false
    }

    /// A clone of the `Res<T>` handle bound in the container, if one is.
    fn from_container(container: &Container) -> Option<Self> {
        match container.get::<Res<T>>() {
            Some(r) => Some(r.clone()),
            None => None,
        }
    }
}

impl<T: 'static> FromContainer for State<T> {
    /// A state handle comes out of the store, so nothing guarantees it is
    /// bound.
    open spec fn always_resolves() -> bool {
        false
    }

    /// A clone of the `State<T>` handle bound in the container, if one is.
    fn from_container(container: &Container) -> Option<Self> {
        match container.get::<State<T>>() {
            Some(r) => Some(r.clone()),
            None => None,
        }
    }
}

impl FromContainer for () {
    /// The empty argument list never touches the store.
    open spec fn always_resolves() -> bool {
        true
    }

    /// The empty argument list always resolves.
    fn from_container(_container: &Container) -> (r: Option<Self>)
        ensures
            r is Some,
    {
        Some(())
    }
}

impl<A1: FromContainer> FromContainer for (A1,) {
    /// The tuple never touches the store only when none of its elements
    /// does.
    open spec fn always_resolves() -> bool {
        A1::always_resolves()
    }

    /// The tuple resolves exactly when every element resolves.
    fn from_container(container: &Container) -> Option<Self> {
        let v0 = match A1::from_container(container) {
            Some(v) => v,
            None => {
                return None;
            },
        };
        Some((v0,))
    }
}

impl<A1: FromContainer, A2: FromContainer> FromContainer for (A1, A2) {
    /// The tuple never touches the store only when none of its elements
    /// does.
    open spec fn always_resolves() -> bool {
        A1::always_resolves() && A2::always_resolves()
    }

    /// The tuple resolves exactly when every element resolves.
    fn from_container(container: &Container) -> Option<Self> {
        let v0 = match A1::from_container(container) {
            Some(v) => v,
            None => {
                return None;
            },
        };
        let v1 = match A2::from_container(container) {
            Some(v) => v,
            None => {
                return None;
            },
        };
        Some((v0, v1))
    }
}

impl<A1: FromContainer, A2: FromContainer, A3: FromContainer> FromContainer for (A1, A2, A3) {
    /// The tuple never touches the store only when none of its elements
    /// does.
    open spec fn always_resolves() -> bool {
        A1::always_resolves() && A2::always_resolves() && A3::always_resolves()
    }

    /// The tuple resolves exactly when every element resolves.
    fn from_container(container: &Container) -> Option<Self> {
        let v0 = match A1::from_container(container) {
            Some(v) => v,
            None => {
                return None;
            },
        };
        let v1 = match A2::from_container(container) {
            Some(v) => v,
            None => {
                return None;
            },
        };
        let v2 = match A3::from_container(container) {
            Some(v) => v,
            None => {
                return None;
            },
        };
        Some((v0, v1, v2))
    }
}

impl<A1: FromContainer, A2: FromContainer, A3: FromContainer, A4: FromContainer> FromContainer for (A1, A2, A3, A4) {
    /// The tuple never touches the store only when none of its elements
    /// does.
    open spec fn always_resolves() -> bool {
        A1::always_resolves() && A2::always_resolves() && A3::always_resolves() && A4::always_resolves()
    }

    /// The tuple resolves exactly when every element resolves.
    fn from_container(container: &Container) -> Option<Self> {
        let v0 = match A1::from_container(container) {
            Some(v) => v,
            None => {
                return None;
            },
        };
        let v1 = match A2::from_container(container) {
            Some(v) => v,
            None => {
                return None;
            },
        };
        let v2 = match A3::from_container(container) {
            Some(v) => v,
            None => {
                return None;
            },
        };
        let v3 = match A4::from_container(container) {
            Some(v) => v,
            None => {
                return None;
            },
        };
        Some((v0, v1, v2, v3))
    }
}

impl<A1: FromContainer, A2: FromContainer, A3: FromContainer, A4: FromContainer, A5: FromContainer> FromContainer for (A1, A2, A3, A4, A5) {
    /// The tuple never touches the store only when none of its elements
    /// does.
    open spec fn always_resolves() -> bool {
        A1::always_resolves() && A2::always_resolves() && A3::always_resolves() && A4::always_resolves() && A5::always_resolves()
    }

    /// The tuple resolves exactly when every element resolves.
    fn from_container(container: &Container) -> Option<Self> {
        let v0 = match A1::from_container(container) {
            Some(v) => v,
            None => {
                return None;
            },
        };
        let v1 = match A2::from_container(container) {
            Some(v) => v,
            None => {
                return None;
            },
        };
        let v2 = match A3::from_container(container) {
            Some(v) => v,
            None => {
                return None;
            },
        };
        let v3 = match A4::from_container(container) {
            Some(v) => v,
            None => {
                return None;
            },
        };
        let v4 = match A5::from_container(container) {
            Some(v) => v,
            None => {
                return None;
            },
        };
        Some((v0, v1, v2, v3, v4))
    }
}

impl<A1: FromContainer, A2: FromContainer, A3: FromContainer, A4: FromContainer, A5: FromContainer, A6: FromContainer> FromContainer for (A1, A2, A3, A4, A5, A6) {
    /// The tuple never touches the store only when none of its elements
    /// does.
    open spec fn always_resolves() -> bool {
        A1::always_resolves() && A2::always_resolves() && A3::always_resolves() && A4::always_resolves() && A5::always_resolves() && A6::always_resolves()
    }

    /// The tuple resolves exactly when every element resolves.
    fn from_container(container: &Container) -> Option<Self> {
        let v0 = match A1::from_container(container) {
            Some(v) => v,
            None => {
                return None;
            },
        };
        let v1 = match A2::from_container(container) {
            Some(v) => v,
            None => {
                return None;
            },
        };
        let v2 = match A3::from_container(container) {
            Some(v) => v,
            None => {
                return None;
            },
        };
        let v3 = match A4::from_container(container) {
            Some(v) => v,
            None => {
                return None;
            },
        };
        let v4 = match A5::from_container(container) {
            Some(v) => v,
            None => {
                return None;
            },
        };
        let v5 = match A6::from_container(container) {
            Some(v) => v,
            None => {
                return None;
            },
        };
        Some((v0, v1, v2, v3, v4, v5))
    }
}

impl<A1: FromContainer, A2: FromContainer, A3: FromContainer, A4: FromContainer, A5: FromContainer, A6: FromContainer, A7: FromContainer> FromContainer for (A1, A2, A3, A4, A5, A6, A7) {
    /// The tuple never touches the store only when none of its elements
    /// does.
    open spec fn always_resolves() -> bool {
        A1::always_resolves() && A2::always_resolves() && A3::always_resolves() && A4::always_resolves() && A5::always_resolves() && A6::always_resolves() && A7::always_resolves()
    }

    /// The tuple resolves exactly when every element resolves.
    fn from_container(container: &Container) -> Option<Self> {
        let v0 = match A1::from_container(container) {
            Some(v) => v,
            None => {
                return None;
            },
        };
        let v1 = match A2::from_container(container) {
            Some(v) => v,
            None => {
                return None;
            },
        };
        let v2 = match A3::from_container(container) {
            Some(v) => v,
            None => {
                return None;
            },
        };
        let v3 = match A4::from_container(container) {
            Some(v) => v,
            None => {
                return None;
            },
        };
        let v4 = match A5::from_container(container) {
            Some(v) => v,
            None => {
                return None;
            },
        };
        let v5 = match A6::from_container(container) {
            Some(v) => v,
            None => {
                return None;
            },
        };
        let v6 = match A7::from_container(container) {
            Some(v) => v,
            None => {
                return None;
            },
        };
        Some((v0, v1, v2, v3, v4, v5, v6))
    }
}

impl<A1: FromContainer, A2: FromContainer, A3: FromContainer, A4: FromContainer, A5: FromContainer, A6: FromContainer, A7: FromContainer, A8: FromContainer> FromContainer for (A1, A2, A3, A4, A5, A6, A7, A8) {
    /// The tuple never touches the store only when none of its elements
    /// does.
    open spec fn always_resolves() -> bool {
        A1::always_resolves() && A2::always_resolves() && A3::always_resolves() && A4::always_resolves() && A5::always_resolves() && A6::always_resolves() && A7::always_resolves() && A8::always_resolves()
    }

    /// The tuple resolves exactly when every element resolves.
    fn from_container(container: &Container) -> Option<Self> {
        let v0 = match A1::from_container(container) {
            Some(v) => v,
            None => {
                return None;
            },
        };
        let v1 = match A2::from_container(container) {
            Some(v) => v,
            None => {
                return None;
            },
        };
        let v2 = match A3::from_container(container) {
            Some(v) => v,
            None => {
                return None;
            },
        };
        let v3 = match A4::from_container(container) {
            Some(v) => v,
            None => {
                return None;
            },
        };
        let v4 = match A5::from_container(container) {
            Some(v) => v,
            None => {
                return None;
            },
        };
        let v5 = match A6::from_container(container) {
            Some(v) => v,
            None => {
                return None;
            },
        };
        let v6 = match A7::from_container(container) {
            Some(v) => v,
            None => {
                return None;
            },
        };
        let v7 = match A8::from_container(container) {
            Some(v) => v,
            None => {
                return None;
            },
        };
        Some((v0, v1, v2, v3, v4, v5, v6, v7))
    }
}

impl<A1: FromContainer, A2: FromContainer, A3: FromContainer, A4: FromContainer, A5: FromContainer, A6: FromContainer, A7: FromContainer, A8: FromContainer, A9: FromContainer> FromContainer for (A1, A2, A3, A4, A5, A6, A7, A8, A9) {
    /// The tuple never touches the store only when none of its elements
    /// does.
    open spec fn always_resolves() -> bool {
        A1::always_resolves() && A2::always_resolves() && A3::always_resolves() && A4::always_resolves() && A5::always_resolves() && A6::always_resolves() && A7::always_resolves() && A8::always_resolves() && A9::always_resolves()
    }

    /// The tuple resolves exactly when every element resolves.
    fn from_container(container: &Container) -> Option<Self> {
        let v0 = match A1::from_container(container) {
            Some(v) => v,
            None => {
                return None;
            },
        };
        let v1 = match A2::from_container(container) {
            Some(v) => v,
            None => {
                return None;
            },
        };
        let v2 = match A3::from_container(container) {
            Some(v) => v,
            None => {
                return None;
            },
        };
        let v3 = match A4::from_container(container) {
            Some(v) => v,
            None => {
                return None;
            },
        };
        let v4 = match A5::from_container(container) {
            Some(v) => v,
            None => {
                return None;
            },
        };
        let v5 = match A6::from_container(container) {
            Some(v) => v,
            None => {
                return None;
            },
        };
        let v6 = match A7::from_container(container) {
            Some(v) => v,
            None => {
                return None;
            },
        };
        let v7 = match A8::from_container(container) {
            Some(v) => v,
            None => {
                return None;
            },
        };
        let v8 = match A9::from_container(container) {
            Some(v) => v,
            None => {
                return None;
            },
        };
        Some((v0, v1, v2, v3, v4, v5, v6, v7, v8))
    }
}

impl<A1: FromContainer, A2: FromContainer, A3: FromContainer, A4: FromContainer, A5: FromContainer, A6: FromContainer, A7: FromContainer, A8: FromContainer, A9: FromContainer, A10: FromContainer> FromContainer for (A1, A2, A3, A4, A5, A6, A7, A8, A9, A10) {
    /// The tuple never touches the store only when none of its elements
    /// does.
    open spec fn always_resolves() -> bool {
        A1::always_resolves() && A2::always_resolves() && A3::always_resolves() && A4::always_resolves() && A5::always_resolves() && A6::always_resolves() && A7::always_resolves() && A8::always_resolves() && A9::always_resolves() && A10::always_resolves()
    }

    /// The tuple resolves exactly when every element resolves.
    fn from_container(container: &Container) -> Option<Self> {
        let v0 = match A1::from_container(container) {
            Some(v) => v,
            None => {
                return None;
            },
        };
        let v1 = match A2::from_container(container) {
            Some(v) => v,
            None => {
                return None;
            },
        };
        let v2 = match A3::from_container(container) {
            Some(v) => v,
            None => {
                return None;
            },
        };
        let v3 = match A4::from_container(container) {
            Some(v) => v,
            None => {
                return None;
            },
        };
        let v4 = match A5::from_container(container) {
            Some(v) => v,
            None => {
                return None;
            },
        };
        let v5 = match A6::from_container(container) {
            Some(v) => v,
            None => {
                return None;
            },
        };
        let v6 = match A7::from_container(container) {
            Some(v) => v,
            None => {
                return None;
            },
        };
        let v7 = match A8::from_container(container) {
            Some(v) => v,
            None => {
                return None;
            },
        };
        let v8 = match A9::from_container(container) {
            Some(v) => v,
            None => {
                return None;
            },
        };
        let v9 = match A10::from_container(container) {
            Some(v) => v,
            None => {
                return None;
            },
        };
        Some((v0, v1, v2, v3, v4, v5, v6, v7, v8, v9))
    }
}

impl<A1: FromContainer, A2: FromContainer, A3: FromContainer, A4: FromContainer, A5: FromContainer, A6: FromContainer, A7: FromContainer, A8: FromContainer, A9: FromContainer, A10: FromContainer, A11: FromContainer> FromContainer for (A1, A2, A3, A4, A5, A6, A7, A8, A9, A10, A11) {
    /// The tuple never touches the store only when none of its elements
    /// does.
    open spec fn always_resolves() -> bool {
        A1::always_resolves() && A2::always_resolves() && A3::always_resolves() && A4::always_resolves() && A5::always_resolves() && A6::always_resolves() && A7::always_resolves() && A8::always_resolves() && A9::always_resolves() && A10::always_resolves() && A11::always_resolves()
    }

    /// The tuple resolves exactly when every element resolves.
    fn from_container(container: &Container) -> Option<Self> {
        let v0 = match A1::from_container(container) {
            Some(v) => v,
            None => {
                return None;
            },
        };
        let v1 = match A2::from_container(container) {
            Some(v) => v,
            None => {
                return None;
            },
        };
        let v2 = match A3::from_container(container) {
            Some(v) => v,
            None => {
                return None;
            },
        };
        let v3 = match A4::from_container(container) {
            Some(v) => v,
            None => {
                return None;
            },
        };
        let v4 = match A5::from_container(container) {
            Some(v) => v,
            None => {
                return None;
            },
        };
        let v5 = match A6::from_container(container) {
            Some(v) => v,
            None => {
                return None;
            },
        };
        let v6 = match A7::from_container(container) {
            Some(v) => v,
            None => {
                return None;
            },
        };
        let v7 = match A8::from_container(container) {
            Some(v) => v,
            None => {
                return None;
            },
        };
        let v8 = match A9::from_container(container) {
            Some(v) => v,
            None => {
                return None;
            },
        };
        let v9 = match A10::from_container(container) {
            Some(v) => v,
            None => {
                return None;
            },
        };
        let v10 = match A11::from_container(container) {
            Some(v) => v,
            None => {
                return None;
            },
        };
        Some((v0, v1, v2, v3, v4, v5, v6, v7, v8, v9, v10))
    }
}

impl<A1: FromContainer, A2: FromContainer, A3: FromContainer, A4: FromContainer, A5: FromContainer, A6: FromContainer, A7: FromContainer, A8: FromContainer, A9: FromContainer, A10: FromContainer, A11: FromContainer, A12: FromContainer> FromContainer for (A1, A2, A3, A4, A5, A6, A7, A8, A9, A10, A11, A12) {
    /// The tuple never touches the store only when none of its elements
    /// does.
    open spec fn always_resolves() -> bool {
        A1::always_resolves() && A2::always_resolves() && A3::always_resolves() && A4::always_resolves() && A5::always_resolves() && A6::always_resolves() && A7::always_resolves() && A8::always_resolves() && A9::always_resolves() && A10::always_resolves() && A11::always_resolves() && A12::always_resolves()
    }

    /// The tuple resolves exactly when every element resolves.
    fn from_container(container: &Container) -> Option<Self> {
        let v0 = match A1::from_container(container) {
            Some(v) => v,
            None => {
                return None;
            },
        };
        let v1 = match A2::from_container(container) {
            Some(v) => v,
            None => {
                return None;
            },
        };
        let v2 = match A3::from_container(container) {
            Some(v) => v,
            None => {
                return None;
            },
        };
        let v3 = match A4::from_container(container) {
            Some(v) => v,
            None => {
                return None;
            },
        };
        let v4 = match A5::from_container(container) {
            Some(v) => v,
            None => {
                return None;
            },
        };
        let v5 = match A6::from_container(container) {
            Some(v) => v,
            None => {
                return None;
            },
        };
        let v6 = match A7::from_container(container) {
            Some(v) => v,
            None => {
                return None;
            },
        };
        let v7 = match A8::from_container(container) {
            Some(v) => v,
            None => {
                return None;
            },
        };
        let v8 = match A9::from_container(container) {
            Some(v) => v,
            None => {
                return None;
            },
        };
        let v9 = match A10::from_container(container) {
            Some(v) => v,
            None => {
                return None;
            },
        };
        let v10 = match A11::from_container(container) {
            Some(v) => v,
            None => {
                return None;
            },
        };
        let v11 = match A12::from_container(container) {
            Some(v) => v,
            None => {
                return None;
            },
        };
        Some((v0, v1, v2, v3, v4, v5, v6, v7, v8, v9, v10, v11))
    }
}

} // verus!
