use vstd::prelude::*;

verus! {

/// Error wrapper returned by the fallible constructors and transformers.
///
/// It carries the owner out of the failed operation untouched, beside the
/// error value, so the caller can recover it.
#[derive(Debug)]
pub struct SelfieError<P, E> {
    /// The owner, exactly as it was handed to the failed operation.
    pub owned: P,
    /// The error the view-building function reported.
    pub error: E,
}

} // verus!
