use vstd::prelude::*;

use crate::selfie::Selfie;

verus! {

/// Descriptor naming a family of dependent-view shapes.
///
/// A container type such as `Selfie<P, R>` names its view through a
/// family `R` rather than through the view type itself, so that one
/// family name can be reused for every owner and every access scope.
/// `Ref` is the concrete representation a view of this family stores.
pub trait RefType {
    /// The stored representation of a view of this family.
    type Ref;
}

/// The family of read-only views of a value of type `T`.
///
/// A view of this family is a value of type `T`, equal to what the
/// build function computed from a borrow of the owner.
pub struct Ref<T>(core::marker::PhantomData<T>);

impl<T> RefType for Ref<T> {
    type Ref = T;
}

/// The family of views that are themselves shared-view containers: the
/// view is a `Selfie` whose owner is a view of family `P` and whose own
/// view family is `R`. This is what allows containers of containers.
pub struct SelfieRef<P, R>(core::marker::PhantomData<P>, core::marker::PhantomData<R>);

impl<P: RefType, R: RefType> RefType for SelfieRef<P, R> {
    type Ref = Selfie<P::Ref, R>;
}

impl<R: RefType> RefType for Option<R> {
    type Ref = Option<R::Ref>;
}

impl<R: RefType> RefType for Box<R> {
    type Ref = Box<R::Ref>;
}

impl<R: RefType> RefType for std::rc::Rc<R> {
    type Ref = std::rc::Rc<R::Ref>;
}

impl<R: RefType> RefType for std::sync::Arc<R> {
    type Ref = std::sync::Arc<R::Ref>;
}

/// Descriptor naming a family of exclusive dependent views of an owner
/// of type `O`.
///
/// An exclusive view governs a part of the owner: while the container
/// exists the owner is unreachable, the view alone is read and written,
/// and on teardown the view is merged back into the owner, so every
/// change made through the view shows up in the recovered owner.
///
/// `wf` says when a view fits an owner; `merge_rel` says how the owner
/// recovered on teardown relates to the owner as constructed and the
/// view as last seen; `merge` performs that write-back.
pub trait MutRefType<O> {
    /// The stored representation of a view of this family.
    type Ref;

    /// Whether the view `r` fits the owner `o` (for instance, whether
    /// the span it governs lies inside `o`).
    spec fn wf(r: &Self::Ref, o: &O) -> bool;

    /// How the owner `out`, recovered after writing `r` back into `o`,
    /// relates to `o` and `r`.
    spec fn merge_rel(o: &O, r: &Self::Ref, out: &O) -> bool;

    /// Writes the view back into the owner and returns the result.
    fn merge(o: O, r: Self::Ref) -> (out: O)
        requires
            Self::wf(&r, &o),
        ensures
            Self::merge_rel(&o, &r, &out),
    ;
}

/// The family of exclusive views of the whole owner.
///
/// The view is the owner's value itself: while the container exists the
/// view is the single authoritative copy, and writing it back simply
/// replaces the owner.
pub struct Mut<T>(core::marker::PhantomData<T>);

impl<T> MutRefType<T> for Mut<T> {
    type Ref = T;

    open spec fn wf(r: &T, o: &T) -> bool {
        true
    }

    open spec fn merge_rel(o: &T, r: &T, out: &T) -> bool {
        out == r
    }

    fn merge(o: T, r: T) -> (out: T) {
        r
    }
}

/// The family of exclusive views that are themselves exclusive-view
/// containers: the view is a `SelfieMut` whose owner is a view of
/// family `P` carved from the outer owner, and whose own view family is
/// `R`. This is what allows exclusive containers of containers.
///
/// The write-back semantics are declared per concrete pair of families;
/// see the byte-span instances in [`crate::bytes`].
pub struct SelfieRefMut<P, R>(core::marker::PhantomData<P>, core::marker::PhantomData<R>);

} // verus!
