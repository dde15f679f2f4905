use vstd::prelude::*;

use std::rc::Rc;
use std::sync::Arc;

verus! {

/// Capability contract for pinning storage handles: a handle stores a
/// value, keeps it at a fixed address for as long as the handle (or any
/// clone of it) is alive, and can give the value back once it is the
/// sole owner.
///
/// The pinned container variants are handed out behind such a handle, so
/// they are never moved while their view exists.
pub trait StableOwned<T>: Sized {
    /// The value the handle stores.
    spec fn target(&self) -> T;

    /// Places `data` behind a new handle.
    fn new_pinned(data: T) -> (p: Self)
        ensures
            p.target() == data,
    ;

    /// Recovers the stored value when this handle is the sole owner of
    /// it; reports the handle back, intact, when the value is still
    /// shared.
    fn unwrap(self) -> (r: Result<T, Self>)
        ensures
            match r {
                Ok(t) => t == self.target(),
                Err(p) => p == self,
            },
    ;
}

impl<T> StableOwned<T> for Box<T> {
    open spec fn target(&self) -> T {
        **self
    }

    fn new_pinned(data: T) -> (p: Self) {
        Box::new(data)
    }

    /// A box is never shared, so recovery always succeeds.
    fn unwrap(self) -> (r: Result<T, Self>)
        ensures
            r is Ok,
    {
        Ok(*self)
    }
}

impl<T> StableOwned<T> for Rc<T> {
    open spec fn target(&self) -> T {
        **self
    }

    fn new_pinned(data: T) -> (p: Self) {
        Rc::new(data)
    }

    fn unwrap(self) -> (r: Result<T, Self>) {
        Rc::try_unwrap(self)
    }
}

/// Relies on std's `Arc::try_unwrap`: it returns the stored value when
/// this handle was the sole strong reference, and otherwise gives the
/// same handle back.
#[verifier::external_body]
fn arc_try_unwrap<T>(v: Arc<T>) -> (r: Result<T, Arc<T>>)
    ensures
        match r {
            Ok(t) => t == v,
            Err(e) => e == v,
        },
{
    Arc::try_unwrap(v)
}

impl<T> StableOwned<T> for Arc<T> {
    open spec fn target(&self) -> T {
        **self
    }

    fn new_pinned(data: T) -> (p: Self) {
        Arc::new(data)
    }

    fn unwrap(self) -> (r: Result<T, Self>) {
        arc_try_unwrap(self)
    }
}

/// Capability contract for storage handles that can be duplicated
/// without touching the stored value: the duplicate is a second handle
/// to the very same data. Reference-counted handles have it; a plain box
/// does not, since duplicating a box would copy the data.
pub trait CloneStableOwned: Sized {
    /// Duplicates the handle; the stored value is shared, not copied.
    fn clone_handle(&self) -> (r: Self)
        ensures
            r == *self,
    ;
}

impl<T> CloneStableOwned for Rc<T> {
    fn clone_handle(&self) -> (r: Self) {
        self.clone()
    }
}

impl<T> CloneStableOwned for Arc<T> {
    fn clone_handle(&self) -> (r: Self) {
        self.clone()
    }
}

} // verus!
