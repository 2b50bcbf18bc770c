//! `also`: run a function on a value for its effect and hand the value back.
use vstd::prelude::*;
use crate::subject::Subject;

verus! {

/// Running a function on a value for its effect, written as a method call on
/// the value.
///
/// The function is called once, and only where its own precondition holds of
/// the value. What comes back is the value itself: untouched by `also`, and
/// as the function left it by `also_mut`.
pub trait Also<T>: Subject<T> {
    /// Calls `function` on a reference to this value and returns the value
    /// unchanged.
    fn also<F: FnOnce(&T) -> ()>(self, function: F) -> (result: T)
        requires
            call_requires(function, (&self.subject(),)),
        ensures
            result == self.subject(),
            call_ensures(function, (&self.subject(),), ()),
    ;

    /// Calls `function` on a mutable reference to this value and returns the
    /// value as the function left it.
    ///
    /// The function must accept every mutable reference that points at this
    /// value. The result is what one such reference holds once the call that
    /// took it has returned.
    fn also_mut<F: FnOnce(&mut T) -> ()>(self, function: F) -> (result: T)
        requires
            forall|target: &mut T|
                *target == self.subject() ==> #[trigger] call_requires(function, (target,)),
        ensures
            exists|target: &mut T|
                {
                    &&& *target == self.subject()
                    &&& *final(target) == result
                    &&& #[trigger] call_ensures(function, (target,), ())
                },
    ;
}

/// Every value can be handed to a function that takes a reference to its
/// type: the function is called on the value itself.
impl<T> Also<T> for T {
    fn also<F: FnOnce(&T) -> ()>(self, function: F) -> (result: T)
        ensures
            result == self,
            call_ensures(function, (&self,), ()),
    {
        function(&self);
        self
    }

    fn also_mut<F: FnOnce(&mut T) -> ()>(self, function: F) -> (result: T)
        ensures
            exists|target: &mut T|
                {
                    &&& *target == self
                    &&& *final(target) == result
                    &&& #[trigger] call_ensures(function, (target,), ())
                },
    {
        let mut value = self;
        function(&mut value);
        value
    }
}

} // verus!
