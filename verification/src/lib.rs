//! Verified self-referential containers: a container owns a value (the
//! owner) and, beside it, a dependent view computed from that value.
//!
//! Holding an object and a view of that object in one place is
//! ordinarily unsafe territory: moving or destroying the container could
//! invalidate the view before it is dropped. This crate makes the
//! combination safe by giving views a value semantics that Verus can
//! check, and states the container guarantees as contracts:
//!
//! - a view is plain data computed once from a borrow of the owner, at
//!   construction, by a caller-supplied build function; every accessor's
//!   contract ties what it yields back to that build function;
//! - a shared view ([`Selfie`], [`PinnedSelfie`]) can never go stale,
//!   because the owner is not writable while the container lives;
//! - an exclusive view ([`SelfieMut`], [`PinnedSelfieMut`]) is the
//!   authoritative copy of the part of the owner it governs: the owner
//!   is unreachable while the container lives, and teardown writes the
//!   view back, so writes made through the view reach the owner and
//!   nothing else;
//! - views are reachable only through scoped accessors, which bind them
//!   to the duration of one call;
//! - fallible construction and mapping hand the owner back untouched
//!   beside the error, never leaving a half-made container.
//!
//! View shapes are named by family descriptors ([`refs::RefType`],
//! [`refs::MutRefType`]) so that one family name serves every owner,
//! including containers of containers ([`refs::SelfieRef`],
//! [`refs::SelfieRefMut`]). Storage handles that pin their pointee
//! ([`StableOwned`], [`CloneStableOwned`]) carry the pinned container
//! variants and the cloning transforms.

pub mod bytes;
mod error;
mod pinned_selfie;
pub mod refs;
mod selfie;
mod stable_owned;

pub use error::SelfieError;
pub use pinned_selfie::PinnedSelfie;
pub use pinned_selfie::PinnedSelfieMut;
pub use selfie::lemma_owner_round_trip;
pub use selfie::lemma_owner_round_trip_mut;
pub use selfie::Selfie;
pub use selfie::SelfieMut;
pub use stable_owned::CloneStableOwned;
pub use stable_owned::StableOwned;
