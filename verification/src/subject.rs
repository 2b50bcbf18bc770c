//! What a function is called on when a combinator hands it a value.
use vstd::prelude::*;

verus! {

/// A value that can be handed to a function that takes a `T`.
///
/// Every type is a `Subject` of itself: there the subject of a value is the
/// value.
pub trait Subject<T>: Sized {
    /// The `T` that a function is called on when it is given this value.
    spec fn subject(self) -> T;
}

impl<T> Subject<T> for T {
    open spec fn subject(self) -> T {
        self
    }
}

} // verus!
