//! Properties: settable cells that hold a value or delegate to a provider.
//!
//! [`PropertyState`] is what a property holds at one moment; its functions say
//! exactly how setting changes it and what reading resolves to. A [`Property`]
//! is a handle on a cell with such a state, shared between its clones and
//! guarded by a mutex, so that no reader ever sees a state half replaced.

use vstd::prelude::*;
use std::sync::Arc;
use parking_lot::{Mutex, MutexGuard};
use crate::lazy::providers::{clone_of, Provider, Provides};
use crate::text::owned;

verus! {

/// The mutex of `parking_lot`, which is `lock_api`'s mutex over
/// `parking_lot`'s raw mutex. Nothing is known of what it holds.
#[verifier::external_type_specification]
#[verifier::external_body]
#[verifier::reject_recursive_types(R)]
#[verifier::reject_recursive_types(T)]
pub struct ExMutex<R, T: ?Sized>(parking_lot::lock_api::Mutex<R, T>);

/// The raw mutex of `parking_lot`.
#[verifier::external_type_specification]
#[verifier::external_body]
pub struct ExRawMutex(parking_lot::RawMutex);

/// A locked cell: the guard that `parking_lot` hands out for a locked mutex,
/// which keeps the mutex locked until it is dropped. The guard's type is
/// bounded by a trait of `lock_api`, so it is held behind this struct, and
/// nothing is known of it.
#[verifier::external_body]
#[verifier::reject_recursive_types(S)]
pub struct Locked<'a, S> {
    guard: MutexGuard<'a, S>,
}

/// Makes a mutex around a state, with `Mutex::new` of `lock_api`. Nothing is
/// claimed of the mutex.
#[verifier::external_body]
fn new_cell<S>(state: S) -> Mutex<S> {
    Mutex::new(state)
}

/// Locks a mutex with `Mutex::lock` of `lock_api`, which blocks until the
/// lock is held and hands out the guard. Nothing is claimed of the guard:
/// what the mutex holds is whatever was written to it last, by any thread.
#[verifier::external_body]
fn lock_cell<S>(cell: &Mutex<S>) -> Locked<'_, S> {
    Locked { guard: cell.lock() }
}

/// The state behind a guard, through the guard's `Deref::deref`. Nothing is
/// claimed of the state.
#[verifier::external_body]
fn locked<'a, 'b, S>(cell: &'a Locked<'b, S>) -> &'a S {
    &*cell.guard
}

/// The state behind a guard, for writing, through the guard's
/// `DerefMut::deref_mut`. Nothing is claimed of the state.
#[verifier::external_body]
fn locked_mut<'a, 'b, S>(cell: &'a mut Locked<'b, S>) -> &'a mut S {
    &mut *cell.guard
}

/// What a property holds: nothing, a provider that it delegates to, or a value
/// of its own.
#[verifier::reject_recursive_types(T)]
#[verifier::reject_recursive_types(S)]
pub enum PropertyState<T, S: Provides<Output = T>> {
    Empty,
    Provider(Provider<T, S>),
    Immediate(T),
}

impl<T: Clone, S: Provides<Output = T>> PropertyState<T, S> {
    /// `value` is an answer that reading this state may give: absence for an
    /// empty state, an answer of the provider for a delegation, and a clone of
    /// the value for a value.
    pub open spec fn resolves(self, value: Option<T>) -> bool {
        match self {
            PropertyState::Empty => value is None,
            PropertyState::Provider(provider) => provider.yields(value),
            PropertyState::Immediate(own) => clone_of(Some(own), value),
        }
    }

    /// The state of a property that has not been set.
    pub fn empty() -> (state: Self)
        ensures
            state == PropertyState::<T, S>::Empty,
    {
        PropertyState::Empty
    }

    /// Sets a value. Whatever the state was, delegation included, the value
    /// replaces it.
    pub fn set(&mut self, value: T)
        ensures
            *final(self) == PropertyState::<T, S>::Immediate(value),
    {
        *self = PropertyState::Immediate(value);
    }

    /// Delegates to a provider. Whatever the state was, the delegation
    /// replaces it. The state holds a handle of its own on the provider's cell.
    pub fn set_from(&mut self, provider: &Provider<T, S>)
        ensures
            *final(self) matches PropertyState::Provider(held) && held.source()
                == provider.source(),
    {
        *self = PropertyState::Provider(provider.clone());
    }

    /// Resolves the state: the value, the answer of the provider that the state
    /// delegates to, or nothing.
    pub fn resolve(&self) -> (value: Option<T>)
        ensures
            self.resolves(value),
    {
        match self {
            PropertyState::Empty => None,
            PropertyState::Provider(provider) => provider.try_get(),
            PropertyState::Immediate(own) => Some(own.clone()),
        }
    }
}

/// A property that has not been set resolves to absence; one that holds a value
/// resolves to a clone of that value; one that delegates to a provider resolves
/// to what the provider answers.
pub proof fn property_resolution<T: Clone, S: Provides<Output = T>>(
    state: PropertyState<T, S>,
    value: Option<T>,
)
    requires
        state.resolves(value),
    ensures
        state is Empty ==> value is None,
        state matches PropertyState::Immediate(own) ==> value matches Some(got) && cloned(own, got),
        state matches PropertyState::Provider(provider) ==> exists|answer: Option<T>| #[trigger]
            provider.source().yields(answer) && clone_of(answer, value),
{
}

/// A property that delegates to a provider whose source always answers with
/// `w` resolves to a clone of `w`.
pub proof fn property_delegation<T: Clone, S: Provides<Output = T>>(
    provider: Provider<T, S>,
    w: T,
    value: Option<T>,
)
    requires
        forall|answer: Option<T>| #[trigger] provider.source().yields(answer) ==> answer == Some(w),
        PropertyState::Provider(provider).resolves(value),
    ensures
        value matches Some(got) && cloned(w, got),
{
}

/// A property stores a value of some type `T`, which can either be directly set
/// or have it set from a [`Provider`]. Clones of a property share its state.
#[verifier::reject_recursive_types(T)]
#[verifier::reject_recursive_types(S)]
pub struct Property<T, S: Provides<Output = T>> {
    id: Option<String>,
    inner: Arc<Mutex<PropertyState<T, S>>>,
}

impl<T: Clone, S: Provides<Output = T>> Property<T, S> {
    /// The id that the property was made with.
    pub closed spec fn id(&self) -> Option<String> {
        self.id
    }

    /// A property without a state of its own.
    pub fn empty(id: Option<String>) -> (fresh: Self)
        ensures
            fresh.id() == id,
    {
        Self { id, inner: Arc::new(new_cell(PropertyState::Empty)) }
    }

    /// Sets the value of the property, replacing whatever it held.
    pub fn set_value(&self, value: T) {
        let mut guard = lock_cell(&self.inner);
        locked_mut(&mut guard).set(value);
    }

    /// Makes the property delegate to a provider, replacing whatever it held.
    pub fn set_from(&self, provider: &Provider<T, S>) {
        let mut guard = lock_cell(&self.inner);
        locked_mut(&mut guard).set_from(provider);
    }

    /// A provider of what the property resolves to when the provider is asked
    /// first.
    pub fn provider(&self) -> (made: Provider<T, Self>)
        ensures
            made.source().id() == self.id(),
    {
        Provider::new(self.clone())
    }

    /// The words that stand for the property in a message: `property` and its
    /// id, or `?` if it has none.
    pub fn describe(&self) -> (words: String)
        ensures
            words@ == "property "@ + match self.id() {
                Some(id) => id@,
                None => "?"@,
            },
    {
        let words = owned("property ");
        match &self.id {
            Some(id) => words.concat(id.as_str()),
            None => words.concat("?"),
        }
    }
}

impl<T: Clone, S: Provides<Output = T>> Clone for Property<T, S> {
    /// Another handle on the same state.
    fn clone(&self) -> (shared: Self)
        ensures
            shared.id() == self.id(),
    {
        Self { id: self.id.clone(), inner: self.inner.clone() }
    }
}

impl<T: Clone, S: Provides<Output = T>> Provides for Property<T, S> {
    type Output = T;

    open spec fn ready(&self) -> bool {
        true
    }

    /// What some state resolves to: the state of a shared property is whatever
    /// was set last, through any of its handles.
    open spec fn yields(&self, value: Option<T>) -> bool {
        exists|state: PropertyState<T, S>| #[trigger] state.resolves(value)
    }

    fn try_get(&self) -> (value: Option<T>) {
        let guard = lock_cell(&self.inner);
        let state = locked(&guard);
        let value = state.resolve();
        assert(state.resolves(value));
        value
    }
}

/// A property in the plain form: a value, a delegation or nothing.
pub type RegularProperty<T, S> = Property<T, S>;

/// Marks the types that can be set as properties.
pub trait Sealed {
}

impl<T, S: Provides<Output = T>> Sealed for Property<T, S> {
}

/// Setting a property from a value of type `V`.
pub trait SetProperty<V>: Sealed {
    fn set(&mut self, value: V);
}

impl<T: Clone, S: Provides<Output = T>> SetProperty<T> for Property<T, S> {
    /// Sets the value of the property.
    fn set(&mut self, value: T) {
        self.set_value(value);
    }
}

impl<'a, T: Clone, S: Provides<Output = T>> SetProperty<&'a Provider<T, S>> for Property<T, S> {
    /// Makes the property delegate to the provider.
    fn set(&mut self, value: &'a Provider<T, S>) {
        self.set_from(value);
    }
}

impl<'a, T: Clone, S: Provides<Output = T>> SetProperty<&'a Property<T, S>> for Property<
    T,
    Property<T, S>,
> {
    /// Makes the property delegate to another property, through a provider
    /// around it.
    fn set(&mut self, value: &'a Property<T, S>) {
        let provider = Provider::new(value.clone());
        self.set_from(&provider);
    }
}

} // verus!
