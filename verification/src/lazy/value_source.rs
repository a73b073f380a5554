//! Defines the [`ValueSource`] trait.

use vstd::prelude::*;

verus! {

/// A value source: a computation of a value from properties that are made for
/// it.
pub trait ValueSource {
    type Properties;

    type Output;

    /// `value` is an answer that the source may give for the properties. A
    /// source that does not say more may give any answer.
    open spec fn reads(&self, properties: &Self::Properties, value: Option<Self::Output>) -> bool {
        true
    }

    /// Get a value from the given properties.
    fn get(&self, properties: &Self::Properties) -> (value: Option<Self::Output>)
        ensures
            self.reads(properties, value),
    ;
}

} // verus!
