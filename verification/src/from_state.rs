//! A trait for creating a value from a stateful object.

use vstd::prelude::*;

verus! {

/// Create some value of type `Self` from state `S`.
pub trait FromState<S>: Sized {
    /// `made` is a value that may be created from the state. Unless an
    /// implementation says more, any value may.
    open spec fn made_from(made: Self, state: &S) -> bool {
        true
    }

    /// Creates the value.
    fn from_state(state: &S) -> (made: Self)
        ensures
            Self::made_from(made, state),
    ;
}

impl<T: Default> FromState<()> for T {
    /// The default value of the type.
    open spec fn made_from(made: Self, state: &()) -> bool {
        call_ensures(T::default, (), made)
    }

    fn from_state(_state: &()) -> (made: Self) {
        T::default()
    }
}

/// Create the specified object from this state.
pub trait Create<T: FromState<Self>>: Sized {
    /// Create a value of type `T` from the state.
    fn create(&self) -> (made: T)
        ensures
            T::made_from(made, self),
    ;
}

impl<T: FromState<S>, S> Create<T> for S {
    fn create(&self) -> (made: T) {
        T::from_state(self)
    }
}

} // verus!
