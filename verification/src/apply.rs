//! `apply`: hand a value to a function and return what the function returns.
use vstd::prelude::*;
use crate::subject::Subject;

verus! {

/// Transforming a value through a function, written as a method call on the
/// value.
///
/// `T` is what the function takes and `R` what it returns. The function is
/// called once, and only where its own precondition holds of the value; its
/// result is returned as it is.
pub trait Apply<T, R>: Subject<T> {
    /// Calls `function` on this value, by move, and returns its result.
    fn apply<F: FnOnce(T) -> R>(self, function: F) -> (result: R)
        requires
            call_requires(function, (self.subject(),)),
        ensures
            call_ensures(function, (self.subject(),), result),
    ;

    /// Calls `function` on a reference to this value and returns its result.
    /// The value is dropped afterwards.
    fn apply_ref<F: FnOnce(&T) -> R>(self, function: F) -> (result: R)
        requires
            call_requires(function, (&self.subject(),)),
        ensures
            call_ensures(function, (&self.subject(),), result),
    ;
}

/// Every value can be applied to a function that takes its type: the function
/// is called on the value itself.
impl<T, R> Apply<T, R> for T {
    fn apply<F: FnOnce(T) -> R>(self, function: F) -> (result: R)
        ensures
            call_ensures(function, (self,), result),
    {
        function(self)
    }

    fn apply_ref<F: FnOnce(&T) -> R>(self, function: F) -> (result: R)
        ensures
            call_ensures(function, (&self,), result),
    {
        function(&self)
    }
}

} // verus!
