//! A type that's been "finalized", preventing further mutable access.

use vstd::prelude::*;

verus! {

/// A value that can be changed until it is finalized and only read afterwards.
#[derive(Debug)]
pub struct Finalize<T> {
    finalized: bool,
    t: T,
}

impl<T> Finalize<T> {
    /// Whether the object has been finalized.
    pub closed spec fn finalized(&self) -> bool {
        self.finalized
    }

    /// The value inside.
    pub closed spec fn value(&self) -> T {
        self.t
    }

    /// Creates a new, unfinalized object.
    pub fn new(t: T) -> (fresh: Self)
        ensures
            !fresh.finalized(),
            fresh.value() == t,
    {
        Self { finalized: false, t }
    }

    /// Finalizes this object. The value inside stays as it is.
    pub fn finalize(&mut self)
        ensures
            final(self).finalized(),
            final(self).value() == old(self).value(),
    {
        self.finalized = true;
    }

    /// Whether the object has been finalized.
    pub fn is_finalized(&self) -> (done: bool)
        ensures
            done == self.finalized(),
    {
        self.finalized
    }

    /// The value inside, for reading.
    pub fn get(&self) -> (value: &T)
        ensures
            *value == self.value(),
    {
        &self.t
    }

    /// The value inside, for writing. An object that has been finalized gives
    /// no such access.
    pub fn get_mut(&mut self) -> (value: &mut T)
        requires
            !old(self).finalized(),
        ensures
            *value == old(self).value(),
            final(self).value() == *final(value),
            !final(self).finalized(),
    {
        &mut self.t
    }

    /// The value inside, for writing, or `None` once the object has been
    /// finalized.
    pub fn try_get_mut(&mut self) -> (value: Option<&mut T>)
        ensures
            value is Some <==> !old(self).finalized(),
            final(self).finalized() == old(self).finalized(),
            match value {
                Some(inner) => *inner == old(self).value() && final(self).value() == *final(inner),
                None => final(self).value() == old(self).value(),
            },
    {
        if self.finalized {
            None
        } else {
            Some(&mut self.t)
        }
    }
}

impl<T> core::ops::Deref for Finalize<T> {
    type Target = T;

    fn deref(&self) -> (value: &T)
        ensures
            *value == self.value(),
    {
        &self.t
    }
}

} // verus!
