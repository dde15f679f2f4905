use vstd::prelude::*;

use crate::error::SelfieError;
use crate::refs::MutRefType;
use crate::refs::RefType;
use crate::stable_owned::CloneStableOwned;
use vstd::pervasive::unreached;

verus! {

/// A container owning both a value (the owner) and a read-only dependent
/// view computed from that value.
///
/// The container is constructed with [`new`](Selfie::new) or
/// [`try_new`](Selfie::try_new) from the owner and a build function; the
/// build function is given a borrow of the owner and returns the view,
/// which the container stores beside the owner. The owner is never
/// handed out mutably while the container exists, so the view stays
/// valid: every accessor's contract ties what it yields back to what the
/// build function computed.
///
/// The view is reachable only through the scoped accessors
/// [`with_referential`](Selfie::with_referential) and
/// [`with_referential_mut`](Selfie::with_referential_mut), which bind it
/// to the duration of the call; [`owned`](Selfie::owned) reads the owner,
/// and [`into_owned`](Selfie::into_owned) takes the view apart first and
/// then gives the owner back exactly as it was received.
pub struct Selfie<P, R: RefType> {
    // The view stands first: implicit destruction runs in declaration
    // order, so the view is dropped strictly before the owner.
    referential: R::Ref,
    owned: P,
}

impl<P, R: RefType> Selfie<P, R> {
    /// The owner held by this container.
    pub closed spec fn spec_owned(&self) -> P {
        self.owned
    }

    /// The view held by this container.
    pub closed spec fn spec_referential(&self) -> R::Ref {
        self.referential
    }

    /// Builds a container from an owner and a build function: the view
    /// stored is exactly what `handler` computed from a borrow of the
    /// owner, and the owner is stored unchanged.
    pub fn new<F: FnOnce(&P) -> R::Ref>(owned: P, handler: F) -> (s: Self)
        requires
            call_requires(handler, (&owned,)),
        ensures
            s.spec_owned() == owned,
            call_ensures(handler, (&owned,), s.spec_referential()),
    {
        let referential = handler(&owned);
        Selfie { owned, referential }
    }

    /// Fallible construction: when the build function reports an error,
    /// no container is made and the owner comes back untouched inside
    /// the [`SelfieError`], beside the error value.
    pub fn try_new<E, F: FnOnce(&P) -> Result<R::Ref, E>>(owned: P, handler: F) -> (res: Result<
        Self,
        SelfieError<P, E>,
    >)
        requires
            call_requires(handler, (&owned,)),
        ensures
            match res {
                Ok(s) => s.spec_owned() == owned && call_ensures(
                    handler,
                    (&owned,),
                    Ok(s.spec_referential()),
                ),
                Err(e) => e.owned == owned && call_ensures(handler, (&owned,), Err(e.error)),
            },
    {
        match handler(&owned) {
            Ok(referential) => Ok(Selfie { owned, referential }),
            Err(error) => Err(SelfieError { owned, error }),
        }
    }

    /// Read-only access to the owner, for the duration of the call.
    pub fn owned(&self) -> (r: &P)
        ensures
            *r == self.spec_owned(),
    {
        &self.owned
    }

    /// Runs `handler` on a borrow of the view, bound to this call, and
    /// returns its result.
    pub fn with_referential<T, F: FnOnce(&R::Ref) -> T>(&self, handler: F) -> (t: T)
        requires
            call_requires(handler, (&self.spec_referential(),)),
        ensures
            call_ensures(handler, (&self.spec_referential(),), t),
    {
        handler(&self.referential)
    }

    /// A copy of the view, available when the view type is trivially
    /// copyable.
    pub fn referential(&self) -> (r: R::Ref) where R::Ref: Copy
        ensures
            r == self.spec_referential(),
    {
        self.referential
    }

    /// Replaces the view by what `handler` computes from the old one,
    /// and returns `handler`'s other result. The owner is not touched:
    /// this mutates only the view's own value.
    pub fn with_referential_mut<T, F: FnOnce(&R::Ref) -> (R::Ref, T)>(&mut self, handler: F) -> (t:
        T)
        requires
            call_requires(handler, (&old(self).spec_referential(),)),
        ensures
            final(self).spec_owned() == old(self).spec_owned(),
            call_ensures(
                handler,
                (&old(self).spec_referential(),),
                (final(self).spec_referential(), t),
            ),
    {
        let (referential, t) = handler(&self.referential);
        self.referential = referential;
        t
    }

    /// The owner that tearing this container down yields: the stored
    /// owner, exactly as the constructor received it, whatever the view.
    pub open spec fn spec_into_owned(&self) -> P {
        self.spec_owned()
    }

    /// Takes the container apart: the view is dropped first, then the
    /// owner is returned exactly as it was given to the constructor.
    pub fn into_owned(self) -> (p: P)
        ensures
            p == self.spec_into_owned(),
    {
        let Selfie { owned, referential } = self;
        drop_view(referential);
        owned
    }

    /// Consumes this container and builds one with a view of another
    /// family, computed by `mapper` from the old view and a borrow of
    /// the owner. The owner itself is left unchanged.
    pub fn map<R2: RefType, F: FnOnce(R::Ref, &P) -> R2::Ref>(self, mapper: F) -> (s2: Selfie<
        P,
        R2,
    >)
        requires
            call_requires(mapper, (self.spec_referential(), &self.spec_owned())),
        ensures
            s2.spec_owned() == self.spec_owned(),
            call_ensures(
                mapper,
                (self.spec_referential(), &self.spec_owned()),
                s2.spec_referential(),
            ),
    {
        let Selfie { owned, referential } = self;
        let referential = mapper(referential, &owned);
        Selfie { owned, referential }
    }

    /// Builds a second container over the same owner, with a view of
    /// another family computed by `mapper` from this container's view
    /// and a borrow of the owner. Only the storage handle is duplicated,
    /// not the owned data, so this container stays intact and the two
    /// serve their views independently.
    pub fn map_cloned<R2: RefType, F: FnOnce(&R::Ref, &P) -> R2::Ref>(&self, mapper: F) -> (s2:
        Selfie<P, R2>) where P: CloneStableOwned
        requires
            call_requires(mapper, (&self.spec_referential(), &self.spec_owned())),
        ensures
            s2.spec_owned() == self.spec_owned(),
            call_ensures(
                mapper,
                (&self.spec_referential(), &self.spec_owned()),
                s2.spec_referential(),
            ),
    {
        let owned = self.owned.clone_handle();
        let referential = mapper(&self.referential, &owned);
        Selfie { owned, referential }
    }

    /// Fallible [`map_cloned`](Selfie::map_cloned): when `mapper`
    /// reports an error, it is returned right away; this container was
    /// never touched, so nothing needs recovering.
    pub fn try_map_cloned<R2: RefType, E, F: FnOnce(&R::Ref, &P) -> Result<R2::Ref, E>>(
        &self,
        mapper: F,
    ) -> (res: Result<Selfie<P, R2>, E>) where P: CloneStableOwned
        requires
            call_requires(mapper, (&self.spec_referential(), &self.spec_owned())),
        ensures
            match res {
                Ok(s2) => s2.spec_owned() == self.spec_owned() && call_ensures(
                    mapper,
                    (&self.spec_referential(), &self.spec_owned()),
                    Ok(s2.spec_referential()),
                ),
                Err(e) => call_ensures(
                    mapper,
                    (&self.spec_referential(), &self.spec_owned()),
                    Err(e),
                ),
            },
    {
        let owned = self.owned.clone_handle();
        match mapper(&self.referential, &owned) {
            Ok(referential) => Ok(Selfie { owned, referential }),
            Err(error) => Err(error),
        }
    }

    /// Fallible [`map`](Selfie::map): when `mapper` reports an error,
    /// the owner comes back untouched inside the [`SelfieError`].
    pub fn try_map<R2: RefType, E, F: FnOnce(R::Ref, &P) -> Result<R2::Ref, E>>(
        self,
        mapper: F,
    ) -> (res: Result<Selfie<P, R2>, SelfieError<P, E>>)
        requires
            call_requires(mapper, (self.spec_referential(), &self.spec_owned())),
        ensures
            match res {
                Ok(s2) => s2.spec_owned() == self.spec_owned() && call_ensures(
                    mapper,
                    (self.spec_referential(), &self.spec_owned()),
                    Ok(s2.spec_referential()),
                ),
                Err(e) => e.owned == self.spec_owned() && call_ensures(
                    mapper,
                    (self.spec_referential(), &self.spec_owned()),
                    Err(e.error),
                ),
            },
    {
        let Selfie { owned, referential } = self;
        match mapper(referential, &owned) {
            Ok(referential) => Ok(Selfie { owned, referential }),
            Err(error) => Err(SelfieError { owned, error }),
        }
    }
}

/// A container owning both a value (the owner) and an exclusive
/// dependent view carved out of that value.
///
/// Unlike [`Selfie`], the owner is unreachable for the container's whole
/// life: it must be treated as continuously exclusively borrowed, so
/// there is no `owned` accessor. The view alone is read and written,
/// through the scoped accessors; on teardown
/// ([`into_owned`](SelfieMut::into_owned), [`map`](SelfieMut::map),
/// [`try_map`](SelfieMut::try_map)) the view is written back into the
/// owner as the family's [`MutRefType::merge_rel`] describes, so every
/// change made through the view shows up in the recovered owner.
pub struct SelfieMut<P, R: MutRefType<P>> {
    // The view stands first: implicit destruction runs in declaration
    // order, so the view is dropped strictly before the owner.
    referential: Option<R::Ref>,
    owned: P,
}

impl<P, R: MutRefType<P>> SelfieMut<P, R> {
    /// The owner held by this container, as it was at construction.
    pub closed spec fn spec_owned(&self) -> P {
        self.owned
    }

    /// The view held by this container.
    pub closed spec fn spec_referential(&self) -> R::Ref {
        self.referential.unwrap()
    }

    /// The container holds a view and the view fits the owner. Every
    /// constructor establishes this and every method preserves it.
    pub closed spec fn wf(&self) -> bool {
        &&& self.referential is Some
        &&& R::wf(&self.referential.unwrap(), &self.owned)
    }

    /// What well-formedness says of the parts: the stored view fits the
    /// stored owner in the sense of the view family.
    pub proof fn lemma_wf(&self)
        requires
            self.wf(),
        ensures
            R::wf(&self.spec_referential(), &self.spec_owned()),
    {
    }

    /// Builds a container from an owner and a build function: the view
    /// stored is exactly what `handler` carved from a borrow of the
    /// owner, and must fit the owner.
    pub fn new<F: FnOnce(&P) -> R::Ref>(owned: P, handler: F) -> (s: Self)
        requires
            call_requires(handler, (&owned,)),
            forall|r: R::Ref| call_ensures(handler, (&owned,), r) ==> R::wf(&r, &owned),
        ensures
            s.wf(),
            s.spec_owned() == owned,
            call_ensures(handler, (&owned,), s.spec_referential()),
    {
        let referential = handler(&owned);
        SelfieMut { owned, referential: Some(referential) }
    }

    /// Fallible construction: when the build function reports an error,
    /// no container is made and the owner comes back untouched inside
    /// the [`SelfieError`], beside the error value.
    pub fn try_new<E, F: FnOnce(&P) -> Result<R::Ref, E>>(owned: P, handler: F) -> (res: Result<
        Self,
        SelfieError<P, E>,
    >)
        requires
            call_requires(handler, (&owned,)),
            forall|r: R::Ref|
                call_ensures(handler, (&owned,), Ok(r)) ==> R::wf(&r, &owned),
        ensures
            match res {
                Ok(s) => s.wf() && s.spec_owned() == owned && call_ensures(
                    handler,
                    (&owned,),
                    Ok(s.spec_referential()),
                ),
                Err(e) => e.owned == owned && call_ensures(handler, (&owned,), Err(e.error)),
            },
    {
        match handler(&owned) {
            Ok(referential) => Ok(SelfieMut { owned, referential: Some(referential) }),
            Err(error) => Err(SelfieError { owned, error }),
        }
    }

    /// Runs `handler` on a borrow of the view, bound to this call, and
    /// returns its result.
    pub fn with_referential<T, F: FnOnce(&R::Ref) -> T>(&self, handler: F) -> (t: T)
        requires
            self.wf(),
            call_requires(handler, (&self.spec_referential(),)),
        ensures
            call_ensures(handler, (&self.spec_referential(),), t),
    {
        match &self.referential {
            Some(r) => handler(r),
            None => unreached(),
        }
    }

    /// Hands the view to `handler` and stores the view it gives back,
    /// which must still fit the owner; returns `handler`'s other result.
    /// This is the one way to write through the view: the change is kept
    /// in the view and reaches the owner when the view is written back
    /// on teardown.
    pub fn with_referential_mut<T, F: FnOnce(R::Ref) -> (R::Ref, T)>(&mut self, handler: F) -> (t:
        T)
        requires
            old(self).wf(),
            call_requires(handler, (old(self).spec_referential(),)),
            forall|r2: R::Ref, u: T|
                call_ensures(handler, (old(self).spec_referential(),), (r2, u)) ==> R::wf(
                    &r2,
                    &old(self).spec_owned(),
                ),
        ensures
            final(self).wf(),
            final(self).spec_owned() == old(self).spec_owned(),
            call_ensures(
                handler,
                (old(self).spec_referential(),),
                (final(self).spec_referential(), t),
            ),
    {
        let mut slot: Option<R::Ref> = None;
        core::mem::swap(&mut self.referential, &mut slot);
        let referential = match slot {
            Some(r) => r,
            None => unreached(),
        };
        let (referential, t) = handler(referential);
        self.referential = Some(referential);
        t
    }

    /// Takes the container apart: the view is written back into the
    /// owner, and the merged owner is returned. Every change made
    /// through the view since construction is in it.
    pub fn into_owned(self) -> (p: P)
        requires
            self.wf(),
        ensures
            R::merge_rel(&self.spec_owned(), &self.spec_referential(), &p),
    {
        let SelfieMut { owned, referential } = self;
        let referential = match referential {
            Some(r) => r,
            None => unreached(),
        };
        R::merge(owned, referential)
    }

    /// Consumes this container and builds a shared-view container over
    /// the merged owner, with a view of another family computed by
    /// `mapper` from the old view. The old view is written back first,
    /// so no change made through it is lost.
    pub fn map<R2: RefType, F: FnOnce(&R::Ref) -> R2::Ref>(self, mapper: F) -> (s2: Selfie<P, R2>)
        requires
            self.wf(),
            call_requires(mapper, (&self.spec_referential(),)),
        ensures
            R::merge_rel(&self.spec_owned(), &self.spec_referential(), &s2.spec_owned()),
            call_ensures(mapper, (&self.spec_referential(),), s2.spec_referential()),
    {
        let SelfieMut { owned, referential } = self;
        let referential = match referential {
            Some(r) => r,
            None => unreached(),
        };
        let referential2 = mapper(&referential);
        let owned = R::merge(owned, referential);
        Selfie { owned, referential: referential2 }
    }

    /// Fallible [`map`](SelfieMut::map): when `mapper` reports an error,
    /// the owner still comes back with the old view written back, inside
    /// the [`SelfieError`] beside the error value.
    pub fn try_map<R2: RefType, E, F: FnOnce(&R::Ref) -> Result<R2::Ref, E>>(
        self,
        mapper: F,
    ) -> (res: Result<Selfie<P, R2>, SelfieError<P, E>>)
        requires
            self.wf(),
            call_requires(mapper, (&self.spec_referential(),)),
        ensures
            match res {
                Ok(s2) => R::merge_rel(&self.spec_owned(), &self.spec_referential(), &s2.spec_owned())
                    && call_ensures(mapper, (&self.spec_referential(),), Ok(s2.spec_referential())),
                Err(e) => R::merge_rel(&self.spec_owned(), &self.spec_referential(), &e.owned)
                    && call_ensures(mapper, (&self.spec_referential(),), Err(e.error)),
            },
    {
        let SelfieMut { owned, referential } = self;
        let referential = match referential {
            Some(r) => r,
            None => unreached(),
        };
        let mapped = mapper(&referential);
        let owned = R::merge(owned, referential);
        match mapped {
            Ok(referential2) => Ok(Selfie { owned, referential: referential2 }),
            Err(error) => Err(SelfieError { owned, error }),
        }
    }
}

/// Destroys a view before its owner is released; a named step so the
/// teardown order is explicit in the code.
pub(crate) fn drop_view<V>(_v: V) {
}

/// Law (owner round-trip): a shared container built from an owner gives
/// exactly that owner back on teardown, whatever the view family and
/// whatever the build function computed. The premise is what
/// [`Selfie::new`] ensures of every container it returns.
pub proof fn lemma_owner_round_trip<P, R: RefType>(s: Selfie<P, R>, o: P)
    requires
        s.spec_owned() == o,
    ensures
        s.spec_into_owned() == o,
{
}

/// Law (owner round-trip, exclusive): an exclusive container over the
/// whole-value family, built with a build function that hands the owner
/// back as the view, gives the owner back unchanged on teardown as long
/// as nothing was written through the view. The premises are what
/// [`SelfieMut::new`] ensures for such a build function, and what
/// [`SelfieMut::into_owned`] ensures of the value it returns.
pub proof fn lemma_owner_round_trip_mut<P>(s: SelfieMut<P, crate::refs::Mut<P>>, o: P, out: P)
    requires
        s.spec_owned() == o,
        s.spec_referential() == o,
        <crate::refs::Mut<P> as MutRefType<P>>::merge_rel(
            &s.spec_owned(),
            &s.spec_referential(),
            &out,
        ),
    ensures
        out == o,
{
}

} // verus!
