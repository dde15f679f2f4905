use vstd::prelude::*;

use crate::refs::MutRefType;
use crate::refs::RefType;
use crate::stable_owned::StableOwned;
use vstd::pervasive::unreached;

verus! {

/// A container holding the owner inline, beside a read-only dependent
/// view of it, rather than behind a separate storage handle.
///
/// Because the owner lives inside the container, the container itself
/// must never be relocated while the view exists. That is not something
/// the container can enforce for itself: [`new`](PinnedSelfie::new)
/// therefore builds the container directly into a pinning storage handle
/// (a capability stated by [`StableOwned`]), and the container is only
/// ever handed out behind such a handle, never by value — except through
/// [`into_owned`](PinnedSelfie::into_owned), which destroys the view in
/// place before extracting the owner.
pub struct PinnedSelfie<O, R: RefType> {
    // The view stands first: implicit destruction runs in declaration
    // order, so the view is dropped strictly before the owner.
    referential: R::Ref,
    owned: O,
}

impl<O, R: RefType> PinnedSelfie<O, R> {
    /// The owner held by this container.
    pub closed spec fn spec_owned(&self) -> O {
        self.owned
    }

    /// The view held by this container.
    pub closed spec fn spec_referential(&self) -> R::Ref {
        self.referential
    }

    /// Builds a container from an owner and a build function, directly
    /// into a new pinning storage handle: the view is computed once the
    /// owner has its final place, and the handle keeps that place fixed
    /// for as long as it lives.
    pub fn new<P: StableOwned<Self>, F: FnOnce(&O) -> R::Ref>(owned: O, handler: F) -> (p: P)
        requires
            call_requires(handler, (&owned,)),
        ensures
            p.target().spec_owned() == owned,
            call_ensures(handler, (&owned,), p.target().spec_referential()),
    {
        let referential = handler(&owned);
        P::new_pinned(PinnedSelfie { owned, referential })
    }

    /// Read-only access to the owner, for the duration of the call.
    pub fn owned(&self) -> (r: &O)
        ensures
            *r == self.spec_owned(),
    {
        &self.owned
    }

    /// Runs `handler` on a borrow of the view, bound to this call, and
    /// returns its result.
    pub fn with_referential<T, F: FnOnce(&R::Ref) -> T>(&self, handler: F) -> (t: T)
        requires
            call_requires(handler, (&self.spec_referential(),)),
        ensures
            call_ensures(handler, (&self.spec_referential(),), t),
    {
        handler(&self.referential)
    }

    /// Replaces the view by what `handler` computes from the old one,
    /// and returns `handler`'s other result. The owner is not touched.
    pub fn with_referential_mut<T, F: FnOnce(&R::Ref) -> (R::Ref, T)>(&mut self, handler: F) -> (t:
        T)
        requires
            call_requires(handler, (&old(self).spec_referential(),)),
        ensures
            final(self).spec_owned() == old(self).spec_owned(),
            call_ensures(
                handler,
                (&old(self).spec_referential(),),
                (final(self).spec_referential(), t),
            ),
    {
        let (referential, t) = handler(&self.referential);
        self.referential = referential;
        t
    }

    /// Destroys the view in place, then extracts the owner by value.
    /// This is the one way a pinned container leaves its handle.
    pub fn into_owned(self) -> (o: O)
        ensures
            o == self.spec_owned(),
    {
        let PinnedSelfie { owned, referential } = self;
        crate::selfie::drop_view(referential);
        owned
    }
}

/// The exclusive-view counterpart of [`PinnedSelfie`]: the owner lives
/// inline and is treated as continuously exclusively borrowed by the
/// view, so it is not readable while the container exists; recovering it
/// through [`into_owned`](PinnedSelfieMut::into_owned) writes the view
/// back, as for [`crate::SelfieMut`].
pub struct PinnedSelfieMut<O, R: MutRefType<O>> {
    // The view stands first: implicit destruction runs in declaration
    // order, so the view is dropped strictly before the owner.
    referential: Option<R::Ref>,
    owned: O,
}

impl<O, R: MutRefType<O>> PinnedSelfieMut<O, R> {
    /// The owner held by this container, as it was at construction.
    pub closed spec fn spec_owned(&self) -> O {
        self.owned
    }

    /// The view held by this container.
    pub closed spec fn spec_referential(&self) -> R::Ref {
        self.referential.unwrap()
    }

    /// The container holds a view and the view fits the owner.
    pub closed spec fn wf(&self) -> bool {
        &&& self.referential is Some
        &&& R::wf(&self.referential.unwrap(), &self.owned)
    }

    /// Builds a container from an owner and a build function, directly
    /// into a new pinning storage handle.
    pub fn new<P: StableOwned<Self>, F: FnOnce(&O) -> R::Ref>(owned: O, handler: F) -> (p: P)
        requires
            call_requires(handler, (&owned,)),
            forall|r: R::Ref| call_ensures(handler, (&owned,), r) ==> R::wf(&r, &owned),
        ensures
            p.target().wf(),
            p.target().spec_owned() == owned,
            call_ensures(handler, (&owned,), p.target().spec_referential()),
    {
        let referential = handler(&owned);
        P::new_pinned(PinnedSelfieMut { owned, referential: Some(referential) })
    }

    /// Read-only access to the view, for the duration of the call.
    pub fn referential(&self) -> (r: &R::Ref)
        requires
            self.wf(),
        ensures
            *r == self.spec_referential(),
    {
        match &self.referential {
            Some(r) => r,
            None => unreached(),
        }
    }

    /// Exclusive access to the view, for the duration of the borrow. The
    /// container stays well formed as long as what is written through
    /// the borrow still fits the owner.
    pub fn referential_mut(&mut self) -> (r: &mut R::Ref)
        requires
            old(self).wf(),
        ensures
            *r == old(self).spec_referential(),
            final(self).spec_owned() == old(self).spec_owned(),
            final(self).spec_referential() == *final(r),
            R::wf(&*final(r), &old(self).spec_owned()) ==> final(self).wf(),
    {
        match &mut self.referential {
            Some(r) => r,
            None => unreached(),
        }
    }

    /// Takes the container apart: the view is written back into the
    /// owner in place, and the merged owner is extracted by value.
    pub fn into_owned(self) -> (o: O)
        requires
            self.wf(),
        ensures
            R::merge_rel(&self.spec_owned(), &self.spec_referential(), &o),
    {
        let PinnedSelfieMut { owned, referential } = self;
        let referential = match referential {
            Some(r) => r,
            None => unreached(),
        };
        R::merge(owned, referential)
    }
}

} // verus!
