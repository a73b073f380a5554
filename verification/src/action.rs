//! Generic trait [`Action`] as a way of performing some action against some
//! object.

use vstd::prelude::*;

verus! {

/// An action against some type.
///
/// `accepts` says on which objects the action may be executed, and `produces`
/// which results an execution on an object may give.
pub trait Action<T, R> {
    /// The action may be executed against `t`. An action that does not say
    /// otherwise may be executed against anything.
    open spec fn accepts(&self, t: T) -> bool {
        true
    }

    /// Executing the action against `t` may give `r`. An action that does not
    /// say more may give anything.
    open spec fn produces(&self, t: T, r: R) -> bool {
        true
    }

    /// Executes this action against object `t`.
    fn execute(&self, t: T) -> (r: R)
        requires
            self.accepts(t),
        ensures
            self.produces(t, r),
    ;
}

impl<T, R, F: Fn(T) -> R> Action<T, R> for F {
    open spec fn accepts(&self, t: T) -> bool {
        call_requires(*self, (t,))
    }

    open spec fn produces(&self, t: T, r: R) -> bool {
        call_ensures(*self, (t,), r)
    }

    fn execute(&self, t: T) -> (r: R) {
        self(t)
    }
}

/// What a function is as an action, written out: it accepts what it requires,
/// and produces what it ensures.
pub proof fn function_as_action<T, R, F: Fn(T) -> R>(f: F, t: T, r: R)
    ensures
        f.accepts(t) == call_requires(f, (t,)),
        f.produces(t, r) == call_ensures(f, (t,), r),
{
}

/// Runs an `action` against `t`.
pub fn execute<T, R, A: Action<T, R>>(t: T, action: A) -> (r: R)
    requires
        action.accepts(t),
    ensures
        action.produces(t, r),
{
    action.execute(t)
}

} // verus!
