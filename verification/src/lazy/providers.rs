//! Providers: lazy values that are computed at most once.
//!
//! Whatever can be asked for a value implements [`Provides`]. A [`Provider`] is
//! a handle on a memo cell around such a source: the first call of `try_get`
//! asks the source and keeps the answer, absent or not; every later call, on
//! this handle or on a clone of it, is answered from the cell.

use vstd::prelude::*;
use vstd::rwlock::{RwLock, RwLockPredicate};
use std::sync::Arc;
use core::marker::PhantomData;
use crate::lazy::provider::{contains_of_both, ProviderSource, Sourced};
use crate::lazy::provider::{AndThenProvider, FlatMapProvider, MapProvider};

pub mod factory;

pub use self::factory::{from_callable, from_fallible_callable, provider, wrap, ProviderFactory};

verus! {

/// A type which provides a value of type `Output`.
///
/// `yields` is the set of answers that the source may give; a source that
/// always gives the same answer yields exactly one.
pub trait Provides {
    type Output;

    /// The source can be asked: every function that it calls on the way accepts
    /// what it is handed. A source that does not say otherwise can always be
    /// asked.
    open spec fn ready(&self) -> bool {
        true
    }

    /// `value` is an answer that the source may give. A source that does not
    /// say more may give any answer.
    open spec fn yields(&self, value: Option<Self::Output>) -> bool {
        true
    }

    /// Tries to get the value, if one is available.
    fn try_get(&self) -> (value: Option<Self::Output>)
        requires
            self.ready(),
        ensures
            self.yields(value),
    ;

    /// Gets the value of a source that is never absent.
    fn get(&self) -> (value: Self::Output)
        requires
            self.ready(),
            forall|answer: Option<Self::Output>| self.yields(answer) ==> answer is Some,
        ensures
            self.yields(Some(value)),
    {
        match self.try_get() {
            Some(value) => value,
            None => vstd::pervasive::unreached(),
        }
    }
}

/// Maps the output of one provider into another.
pub fn map<P: Provides<Output = T>, T, U: Clone, F: Fn(T) -> U>(p: P, f: F) -> (mapped: Provider<
    U,
    MapProvider<P, T, F, U>,
>)
    requires
        p.ready(),
        forall|t: T| #[trigger] p.yields(Some(t)) ==> call_requires(f, (t,)),
    ensures
        mapped.source().inner() == p,
        mapped.source().function() == f,
{
    Provider::new(MapProvider::new(p, f))
}

/// Maps the output of one provider into another, or into absence.
pub fn and_then<P: Provides<Output = T>, T, U: Clone, F: Fn(T) -> Option<U>>(p: P, f: F) -> (mapped:
    Provider<U, AndThenProvider<P, T, F, U>>)
    requires
        p.ready(),
        forall|t: T| #[trigger] p.yields(Some(t)) ==> call_requires(f, (t,)),
    ensures
        mapped.source().inner() == p,
        mapped.source().function() == f,
{
    Provider::new(AndThenProvider::new(p, f))
}

/// Makes a second provider from the output of a first and answers with the
/// output of the second. The first provider and the function are asked at most
/// once; the second provider keeps its own memory.
pub fn flat_map<
    P: Provides<Output = T>,
    T,
    PB: Provides<Output = U>,
    U: Clone,
    F: Fn(T) -> PB,
>(p: P, f: F) -> (mapped: Provider<U, FlatMapProvider<P, T, F, PB, U>>)
    requires
        p.ready(),
        forall|t: T| #[trigger] p.yields(Some(t)) ==> call_requires(f, (t,)),
        forall|t: T, second: PB| #[trigger] call_ensures(f, (t,), second) ==> second.ready(),
    ensures
        mapped.source().inner() == p,
        mapped.source().function() == f,
{
    Provider::new(FlatMapProvider::new(p, f))
}

/// Pairs the outputs of two providers.
pub fn zip<PA: Provides<Output = T>, T: Clone, PB: Provides<Output = U>, U: Clone>(
    p: PA,
    f: PB,
) -> (zipped: Provider<(T, U), ZipProvider<PA, PB>>)
    requires
        p.ready(),
        f.ready(),
    ensures
        zipped.source().first() == p,
        zipped.source().second() == f,
{
    Provider::new(ZipProvider::new(p, f))
}

/// `copy` is what cloning `held` may give: absent for absent, and a clone
/// of the value otherwise.
pub open spec fn clone_of<T: Clone>(held: Option<T>, copy: Option<T>) -> bool {
    if held is Some {
        copy is Some && cloned(held->Some_0, copy->Some_0)
    } else {
        copy is None
    }
}

/// The state of a memo cell: a source that has not been asked yet, or the
/// answer that it gave.
pub enum Memo<T, P> {
    Pending(P),
    Done(Option<T>),
}

impl<T: Clone, P: Provides<Output = T>> Memo<T, P> {
    /// Gets the answer, asking the source if it has not been asked before. The
    /// cell is `Done` afterwards and holds the source's answer; a cell that
    /// was `Done` is left as it is, and its source is not asked again.
    pub fn force(&mut self) -> (value: Option<T>)
        requires
            *old(self) matches Memo::Pending(source) ==> source.ready(),
        ensures
            match *old(self) {
                Memo::Pending(source) => *final(self) matches Memo::Done(answer) && source.yields(
                    answer,
                ) && clone_of(answer, value),
                Memo::Done(answer) => *final(self) == *old(self) && clone_of(answer, value),
            },
    {
        match self {
            Memo::Done(answer) => answer.clone(),
            Memo::Pending(source) => {
                let answer = source.try_get();
                let value = answer.clone();
                *self = Memo::Done(answer);
                value
            },
        }
    }

    /// Whether the source has been asked.
    pub fn is_done(&self) -> (done: bool)
        ensures
            done == (self is Done),
    {
        match self {
            Memo::Done(_) => true,
            Memo::Pending(_) => false,
        }
    }
}

/// What a shared memo cell may hold: the source it was made with, ready to be
/// asked, or an answer that this source may give.
pub struct MemoInv<P> {
    pub source: P,
}

impl<T, P: Provides<Output = T>> RwLockPredicate<Memo<T, P>> for MemoInv<P> {
    open spec fn inv(self, state: Memo<T, P>) -> bool {
        match state {
            Memo::Pending(source) => source == self.source && source.ready(),
            Memo::Done(answer) => self.source.yields(answer),
        }
    }
}

/// A provider of a value of type `T`: a handle on a memo cell around the
/// source `P`. Clones of a provider share the cell.
#[verifier::reject_recursive_types(T)]
#[verifier::reject_recursive_types(P)]
pub struct Provider<T, P: Provides<Output = T>> {
    kind: Arc<RwLock<Memo<T, P>, MemoInv<P>>>,
}

impl<T: Clone, P: Provides<Output = T>> Provider<T, P> {
    /// The source that the cell was made with.
    pub closed spec fn source(&self) -> P {
        self.kind.pred().source
    }

    /// A provider around a source that has not been asked yet.
    pub fn new(source: P) -> (fresh: Self)
        requires
            source.ready(),
        ensures
            fresh.source() == source,
    {
        let ghost inv = MemoInv { source };
        Provider { kind: Arc::new(RwLock::new(Memo::Pending(source), Ghost(inv))) }
    }
}

impl<T: Clone, P: Provides<Output = T>> Provider<T, P> {
    /// Maps the value of this provider with a function. The result is a
    /// provider again: this one is asked, and the function called, at most once.
    pub fn map<U: Clone, F: Fn(T) -> U>(self, f: F) -> (mapped: Provider<
        U,
        MapProvider<Self, T, F, U>,
    >)
        requires
            forall|t: T| #[trigger] self.yields(Some(t)) ==> call_requires(f, (t,)),
        ensures
            mapped.source().inner() == self,
            mapped.source().function() == f,
    {
        map(self, f)
    }

    /// Maps the value of this provider with a function that may answer with
    /// absence.
    pub fn and_then<U: Clone, F: Fn(T) -> Option<U>>(self, f: F) -> (mapped: Provider<
        U,
        AndThenProvider<Self, T, F, U>,
    >)
        requires
            forall|t: T| #[trigger] self.yields(Some(t)) ==> call_requires(f, (t,)),
        ensures
            mapped.source().inner() == self,
            mapped.source().function() == f,
    {
        and_then(self, f)
    }

    /// Makes a second provider from the value of this one and answers with
    /// the value of the second.
    pub fn flat_map<PB: Provides<Output = U>, U: Clone, F: Fn(T) -> PB>(self, f: F) -> (mapped:
        Provider<U, FlatMapProvider<Self, T, F, PB, U>>)
        requires
            forall|t: T| #[trigger] self.yields(Some(t)) ==> call_requires(f, (t,)),
            forall|t: T, second: PB| #[trigger] call_ensures(f, (t,), second) ==> second.ready(),
        ensures
            mapped.source().inner() == self,
            mapped.source().function() == f,
    {
        flat_map(self, f)
    }

    /// This provider as a provider: another handle on the same cell.
    pub fn provider(&self) -> (shared: Self)
        ensures
            shared.source() == self.source(),
    {
        self.clone()
    }

    /// Zips this provider with another source: the pair of their values, or
    /// absence if either is absent.
    pub fn zip<PB: Provides<Output = U>, U: Clone>(self, other: PB) -> (zipped: Provider<
        (T, U),
        ZipProvider<Self, PB>,
    >)
        requires
            other.ready(),
        ensures
            zipped.source().first() == self,
            zipped.source().second() == other,
    {
        zip(self, other)
    }
}

impl<T: Clone, P: Provides<Output = T>> Clone for Provider<T, P> {
    /// Another handle on the same cell.
    fn clone(&self) -> (shared: Self)
        ensures
            shared.source() == self.source(),
    {
        Provider { kind: self.kind.clone() }
    }
}

impl<T: Clone, P: Provides<Output = T>> Provides for Provider<T, P> {
    type Output = T;

    open spec fn ready(&self) -> bool {
        true
    }

    open spec fn yields(&self, value: Option<T>) -> bool {
        exists|answer: Option<T>| #[trigger] self.source().yields(answer) && clone_of(answer, value)
    }

    fn try_get(&self) -> (value: Option<T>) {
        let (state, handle) = self.kind.acquire_write();
        let mut state = state;
        let value = state.force();
        proof {
            let answer = state->Done_0;
            assert(self.source().yields(answer) && clone_of(answer, value));
        }
        handle.release_write(state);
        value
    }
}

/// A source that asks a function which may answer with absence.
pub struct FallibleProducer<T, F> {
    function: Arc<F>,
    _ty: PhantomData<T>,
}

impl<T, F: Fn() -> Option<T>> FallibleProducer<T, F> {
    /// The function that is asked.
    pub closed spec fn function(&self) -> F {
        *self.function
    }

    pub fn new(function: F) -> (fresh: Self)
        ensures
            fresh.function() == function,
    {
        Self { function: Arc::new(function), _ty: PhantomData }
    }
}

impl<T, F: Fn() -> Option<T>> Provides for FallibleProducer<T, F> {
    type Output = T;

    open spec fn ready(&self) -> bool {
        call_requires(self.function(), ())
    }

    open spec fn yields(&self, value: Option<T>) -> bool {
        call_ensures(self.function(), (), value)
    }

    fn try_get(&self) -> (value: Option<T>) {
        (self.function)()
    }
}

impl<T, F: Fn() -> Option<T>> Sourced for FallibleProducer<T, F> {
    /// What a function gives comes from nowhere.
    open spec fn origin(&self, source: ProviderSource) -> bool {
        false
    }

    fn sources(&self) -> (found: Vec<ProviderSource>) {
        Vec::new()
    }
}

impl<T, F: Fn() -> Option<T>> Clone for FallibleProducer<T, F> {
    /// A source that asks the same function.
    fn clone(&self) -> (copy: Self)
        ensures
            copy.function() == self.function(),
    {
        Self { function: self.function.clone(), _ty: PhantomData }
    }
}

/// A source that asks two sources in turn and pairs their values.
pub struct ZipProvider<PA, PB> {
    first: PA,
    second: PB,
}

impl<PA: Provides, PB: Provides> ZipProvider<PA, PB> {
    /// The source of the pairs' first halves.
    pub closed spec fn first(&self) -> PA {
        self.first
    }

    /// The source of the pairs' second halves.
    pub closed spec fn second(&self) -> PB {
        self.second
    }

    pub fn new(first: PA, second: PB) -> (fresh: Self)
        ensures
            fresh.first() == first,
            fresh.second() == second,
    {
        Self { first, second }
    }
}

impl<PA: Provides + Clone, PB: Provides + Clone> Clone for ZipProvider<PA, PB> {
    /// A source that pairs clones of both sources.
    fn clone(&self) -> (copy: Self)
        ensures
            cloned(self.first(), copy.first()),
            cloned(self.second(), copy.second()),
    {
        Self { first: self.first.clone(), second: self.second.clone() }
    }
}

impl<PA: Provides, PB: Provides> Provides for ZipProvider<PA, PB> {
    type Output = (PA::Output, PB::Output);

    open spec fn ready(&self) -> bool {
        self.first().ready() && self.second().ready()
    }

    open spec fn yields(&self, value: Option<(PA::Output, PB::Output)>) -> bool {
        match value {
            Some((a, b)) => self.first().yields(Some(a)) && self.second().yields(Some(b)),
            None => self.first().yields(None) || (self.second().yields(None) && exists|
                a: PA::Output,
            | #[trigger]
                self.first().yields(Some(a))),
        }
    }

    fn try_get(&self) -> (value: Option<(PA::Output, PB::Output)>) {
        match self.first.try_get() {
            None => None,
            Some(a) => match self.second.try_get() {
                None => None,
                Some(b) => Some((a, b)),
            },
        }
    }
}

impl<PA: Provides + Sourced, PB: Provides + Sourced> Sourced for ZipProvider<PA, PB> {
    /// Where the value of either source comes from.
    open spec fn origin(&self, source: ProviderSource) -> bool {
        self.first().origin(source) || self.second().origin(source)
    }

    fn sources(&self) -> (found: Vec<ProviderSource>) {
        let mut found = self.first.sources();
        let mut more = self.second.sources();
        let ghost left = found@;
        let ghost right = more@;
        found.append(&mut more);
        proof {
            assert forall|source: ProviderSource|
                found@.contains(source) <==> self.origin(source) by {
                contains_of_both(left, right, source);
            }
        }
        found
    }
}

/// What a provider answers, written out: a clone of what its source answers. A
/// provider can always be asked.
pub proof fn provider_yields<T: Clone, P: Provides<Output = T>>(
    provider: Provider<T, P>,
    value: Option<T>,
)
    ensures
        provider.ready(),
        provider.yields(value) <==> exists|answer: Option<T>| #[trigger]
            provider.source().yields(answer) && clone_of(answer, value),
{
}

/// What a fallible producer answers, written out: what its function returns.
pub proof fn fallible_producer_yields<T, F: Fn() -> Option<T>>(
    producer: FallibleProducer<T, F>,
    value: Option<T>,
)
    ensures
        producer.ready() == call_requires(producer.function(), ()),
        producer.yields(value) <==> call_ensures(producer.function(), (), value),
{
}

/// What a zip answers, written out: the pair of what both sources answer, or
/// absence where the first is absent, or the second after the first answered.
pub proof fn zip_yields<PA: Provides, PB: Provides>(
    zipped: ZipProvider<PA, PB>,
    value: Option<(PA::Output, PB::Output)>,
)
    ensures
        zipped.ready() == (zipped.first().ready() && zipped.second().ready()),
        zipped.yields(value) <==> match value {
            Some((a, b)) => zipped.first().yields(Some(a)) && zipped.second().yields(Some(b)),
            None => zipped.first().yields(None) || (zipped.second().yields(None) && exists|
                a: PA::Output,
            | #[trigger]
                zipped.first().yields(Some(a))),
        },
{
}

/// The law of `map`: where the source always answers with `t`, and `f` always
/// makes `u` of `t`, the mapped provider always answers with a clone of `u`.
pub proof fn map_law<P: Provides<Output = T>, T, U: Clone, F: Fn(T) -> U>(
    mapped: Provider<U, MapProvider<P, T, F, U>>,
    t: T,
    u: U,
    value: Option<U>,
)
    requires
        forall|answer: Option<T>| #[trigger]
            mapped.source().inner().yields(answer) ==> answer == Some(t),
        forall|made: U| #[trigger]
            call_ensures(mapped.source().function(), (t,), made) ==> made == u,
        mapped.yields(value),
    ensures
        value matches Some(got) && cloned(u, got),
{
    let answer = choose|answer: Option<U>| #[trigger]
        mapped.source().yields(answer) && clone_of(answer, value);
    if answer is None {
        assert(mapped.source().inner().yields(None));
    }
}

/// The law of `and_then`: where the source always answers with `t`, and `f`
/// always answers `t` with `Some(u)`, the mapped provider always answers with a
/// clone of `u`.
pub proof fn and_then_law<P: Provides<Output = T>, T, U: Clone, F: Fn(T) -> Option<U>>(
    mapped: Provider<U, AndThenProvider<P, T, F, U>>,
    t: T,
    u: U,
    value: Option<U>,
)
    requires
        forall|answer: Option<T>| #[trigger]
            mapped.source().inner().yields(answer) ==> answer == Some(t),
        forall|made: Option<U>| #[trigger]
            call_ensures(mapped.source().function(), (t,), made) ==> made == Some(u),
        mapped.yields(value),
    ensures
        value matches Some(got) && cloned(u, got),
{
    let answer = choose|answer: Option<U>| #[trigger]
        mapped.source().yields(answer) && clone_of(answer, value);
    if answer is None && mapped.source().inner().yields(None) {
        assert(false);
    }
}

/// The law of `zip`: where the first source always answers with `a` and the
/// second with `b`, the zipped provider always answers with a clone of
/// `(a, b)`.
pub proof fn zip_law<PA: Provides<Output = T>, T: Clone, PB: Provides<Output = U>, U: Clone>(
    zipped: Provider<(T, U), ZipProvider<PA, PB>>,
    a: T,
    b: U,
    value: Option<(T, U)>,
)
    requires
        forall|answer: Option<T>| #[trigger]
            zipped.source().first().yields(answer) ==> answer == Some(a),
        forall|answer: Option<U>| #[trigger]
            zipped.source().second().yields(answer) ==> answer == Some(b),
        zipped.yields(value),
    ensures
        value matches Some(got) && cloned((a, b), got),
{
    let answer = choose|answer: Option<(T, U)>| #[trigger]
        zipped.source().yields(answer) && clone_of(answer, value);
    if answer is None {
        if zipped.source().first().yields(None) {
            assert(false);
        } else {
            assert(zipped.source().second().yields(None));
            assert(false);
        }
    }
}

/// The law of `flat_map`: where the first source always answers with `t`, the
/// function always makes the source `second` of `t`, and `second` always
/// answers with `u`, the mapped provider always answers with a clone of `u`.
pub proof fn flat_map_law<
    P: Provides<Output = T>,
    T,
    PB: Provides<Output = U>,
    U: Clone,
    F: Fn(T) -> PB,
>(mapped: Provider<U, FlatMapProvider<P, T, F, PB, U>>, t: T, second: PB, u: U, value: Option<U>)
    requires
        forall|answer: Option<T>| #[trigger]
            mapped.source().inner().yields(answer) ==> answer == Some(t),
        forall|made: PB| #[trigger]
            call_ensures(mapped.source().function(), (t,), made) ==> made == second,
        forall|answer: Option<U>| #[trigger] second.yields(answer) ==> answer == Some(u),
        mapped.yields(value),
    ensures
        value matches Some(got) && cloned(u, got),
{
    let answer = choose|answer: Option<U>| #[trigger]
        mapped.source().yields(answer) && clone_of(answer, value);
    if answer is None && mapped.source().inner().yields(None) {
        assert(false);
    }
}

/// The law of memoization: a provider around a source that always answers
/// with `t` always answers with a clone of `t`, on every handle.
pub proof fn memo_law<T: Clone, P: Provides<Output = T>>(
    provider: Provider<T, P>,
    shared: Provider<T, P>,
    t: T,
    value: Option<T>,
)
    requires
        forall|answer: Option<T>| #[trigger] provider.source().yields(answer) ==> answer == Some(t),
        shared.source() == provider.source(),
        shared.yields(value),
    ensures
        value matches Some(got) && cloned(t, got),
{
}

} // verus!
