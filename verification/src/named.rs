//! Types that carry a name.

use vstd::prelude::*;

verus! {

/// A type with a name.
pub trait Named {
    /// The name of the object. An implementation that does not say what it is
    /// leaves it open.
    open spec fn name_of(&self) -> Seq<char> {
        arbitrary()
    }

    /// Gets the name of self.
    fn name(&self) -> (name: &str)
        ensures
            name@ == self.name_of(),
    ;
}

/// Create a named object.
pub trait CreateNamed: Named + Sized {
    /// Creates a named object with the given name.
    fn with_name(name: &str) -> (fresh: Self)
        ensures
            fresh.name_of() == name@,
    ;
}

} // verus!
