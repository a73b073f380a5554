//! The sources that providers are composed of.
//!
//! Each source here is stateless: asking it twice computes twice. A source is
//! made lazy and memoized by putting it into a
//! [`Provider`](crate::lazy::providers::Provider).

use vstd::prelude::*;
use std::sync::Arc;
use core::marker::PhantomData;
use crate::beans::{BeanProvider, FromBeanProvider};
use crate::lazy::providers::{clone_of, Provider as MemoProvider, Provides};
use crate::lazy::value_source::ValueSource;

verus! {

/// Source of value in a provider.
#[derive(Debug, Clone, Copy, PartialEq, Eq, Hash)]
pub enum ProviderSource {
    Task(),
}

/// A source that can tell where its value comes from.
pub trait Sourced {
    /// `source` is one of the places that the value comes from. A source that
    /// does not say where its value comes from leaves it open.
    open spec fn origin(&self, source: ProviderSource) -> bool {
        arbitrary()
    }

    /// Gets the sources of this provider's value, each at least once.
    fn sources(&self) -> (found: Vec<ProviderSource>)
        ensures
            forall|source: ProviderSource| found@.contains(source) <==> self.origin(source),
    ;
}

/// What two lists hold together is what either holds.
pub proof fn contains_of_both<A>(first: Seq<A>, second: Seq<A>, a: A)
    ensures
        (first + second).contains(a) <==> first.contains(a) || second.contains(a),
{
    let both = first + second;
    if first.contains(a) {
        let i = choose|i: int| 0 <= i < first.len() && first[i] == a;
        assert(both[i] == a);
    }
    if second.contains(a) {
        let i = choose|i: int| 0 <= i < second.len() && second[i] == a;
        assert(both[first.len() + i] == a);
    }
    if both.contains(a) {
        let i = choose|i: int| 0 <= i < both.len() && both[i] == a;
        if i < first.len() {
            assert(first[i] == a);
        } else {
            assert(second[i - first.len()] == a);
        }
    }
}

/// A container object that provides a value of a specific type.
pub trait Provider<T>: Provides<Output = T> {
}

impl<T, P: Provides<Output = T>> Provider<T> for P {
}

/// A provider of a value `T`.
pub struct JustProvider<T>(T);

impl<T: Clone> JustProvider<T> {
    /// The value that is provided.
    pub closed spec fn value(&self) -> T {
        self.0
    }

    pub fn new(t: T) -> (fresh: Self)
        ensures
            fresh.value() == t,
    {
        Self(t)
    }
}

impl<T: Clone> Provides for JustProvider<T> {
    type Output = T;

    open spec fn ready(&self) -> bool {
        true
    }

    /// A clone of the value, never absence.
    open spec fn yields(&self, value: Option<T>) -> bool {
        clone_of(Some(self.value()), value)
    }

    fn try_get(&self) -> (value: Option<T>) {
        Some(self.0.clone())
    }
}

impl<T: Clone> Sourced for JustProvider<T> {
    /// A value of its own comes from nowhere.
    open spec fn origin(&self, source: ProviderSource) -> bool {
        false
    }

    fn sources(&self) -> (found: Vec<ProviderSource>) {
        Vec::new()
    }
}

/// A provider from a provider.
pub struct ProviderProvider<P, T> {
    provider: P,
    _ty: PhantomData<T>,
}

impl<P: Provides<Output = T>, T> ProviderProvider<P, T> {
    /// The provider that is asked.
    pub closed spec fn inner(&self) -> P {
        self.provider
    }

    pub fn new(provider: P) -> (fresh: Self)
        ensures
            fresh.inner() == provider,
    {
        Self { provider, _ty: PhantomData }
    }
}

impl<P: Provides<Output = T>, T> Provides for ProviderProvider<P, T> {
    type Output = T;

    open spec fn ready(&self) -> bool {
        self.inner().ready()
    }

    /// Whatever the inner provider answers.
    open spec fn yields(&self, value: Option<T>) -> bool {
        self.inner().yields(value)
    }

    fn try_get(&self) -> (value: Option<T>) {
        self.provider.try_get()
    }
}

impl<P: Provides<Output = T> + Sourced, T> Sourced for ProviderProvider<P, T> {
    /// Where the inner provider's value comes from.
    open spec fn origin(&self, source: ProviderSource) -> bool {
        self.inner().origin(source)
    }

    fn sources(&self) -> (found: Vec<ProviderSource>) {
        self.provider.sources()
    }
}

/// A provider that applies a function to the value of a provider.
pub struct MapProvider<P, T, F, U> {
    provider: P,
    function: Arc<F>,
    _ty: PhantomData<(T, U)>,
}

impl<P: Provides<Output = T>, T, F: Fn(T) -> U, U> MapProvider<P, T, F, U> {
    /// The provider whose value is mapped.
    pub closed spec fn inner(&self) -> P {
        self.provider
    }

    /// The function that maps the value.
    pub closed spec fn function(&self) -> F {
        *self.function
    }

    pub fn new(provider: P, function: F) -> (fresh: Self)
        ensures
            fresh.inner() == provider,
            fresh.function() == function,
    {
        Self { provider, function: Arc::new(function), _ty: PhantomData }
    }
}

impl<P: Provides<Output = T>, T, F: Fn(T) -> U, U> Provides for MapProvider<P, T, F, U> {
    type Output = U;

    open spec fn ready(&self) -> bool {
        self.inner().ready() && forall|t: T| #[trigger]
            self.inner().yields(Some(t)) ==> call_requires(self.function(), (t,))
    }

    /// Absence where the inner provider is absent, and what the function makes
    /// of its value otherwise.
    open spec fn yields(&self, value: Option<U>) -> bool {
        match value {
            None => self.inner().yields(None),
            Some(u) => exists|t: T| #[trigger]
                self.inner().yields(Some(t)) && call_ensures(self.function(), (t,), u),
        }
    }

    fn try_get(&self) -> (value: Option<U>) {
        match self.provider.try_get() {
            None => None,
            Some(t) => Some((self.function)(t)),
        }
    }
}

impl<P: Provides<Output = T> + Sourced, T, F: Fn(T) -> U, U> Sourced for MapProvider<P, T, F, U> {
    /// Where the inner provider's value comes from.
    open spec fn origin(&self, source: ProviderSource) -> bool {
        self.inner().origin(source)
    }

    fn sources(&self) -> (found: Vec<ProviderSource>) {
        self.provider.sources()
    }
}

/// A provider that applies a function, which may answer with absence, to the
/// value of a provider.
pub struct AndThenProvider<P, T, F, U> {
    provider: P,
    function: Arc<F>,
    _ty: PhantomData<(T, U)>,
}

impl<P: Provides<Output = T>, T, F: Fn(T) -> Option<U>, U> AndThenProvider<P, T, F, U> {
    /// The provider whose value is mapped.
    pub closed spec fn inner(&self) -> P {
        self.provider
    }

    /// The function that maps the value.
    pub closed spec fn function(&self) -> F {
        *self.function
    }

    pub fn new(provider: P, function: F) -> (fresh: Self)
        ensures
            fresh.inner() == provider,
            fresh.function() == function,
    {
        Self { provider, function: Arc::new(function), _ty: PhantomData }
    }
}

impl<P: Provides<Output = T>, T, F: Fn(T) -> Option<U>, U> Provides for AndThenProvider<
    P,
    T,
    F,
    U,
> {
    type Output = U;

    open spec fn ready(&self) -> bool {
        self.inner().ready() && forall|t: T| #[trigger]
            self.inner().yields(Some(t)) ==> call_requires(self.function(), (t,))
    }

    /// Absence where the inner provider is absent, and what the function
    /// answers for its value otherwise.
    open spec fn yields(&self, value: Option<U>) -> bool {
        (value is None && self.inner().yields(None)) || exists|t: T| #[trigger]
            self.inner().yields(Some(t)) && call_ensures(self.function(), (t,), value)
    }

    fn try_get(&self) -> (value: Option<U>) {
        match self.provider.try_get() {
            None => None,
            Some(t) => (self.function)(t),
        }
    }
}

impl<P: Provides<Output = T> + Sourced, T, F: Fn(T) -> Option<U>, U> Sourced for AndThenProvider<
    P,
    T,
    F,
    U,
> {
    /// Where the inner provider's value comes from.
    open spec fn origin(&self, source: ProviderSource) -> bool {
        self.inner().origin(source)
    }

    fn sources(&self) -> (found: Vec<ProviderSource>) {
        self.provider.sources()
    }
}

/// A provider that makes a second provider from the value of a first and
/// answers with the value of the second.
pub struct FlatMapProvider<PA, T, F, PB, U> {
    provider: PA,
    function: Arc<F>,
    _ty: PhantomData<(T, U, PB)>,
}

impl<PA: Provides<Output = T>, T, F: Fn(T) -> PB, PB: Provides<Output = U>, U> FlatMapProvider<
    PA,
    T,
    F,
    PB,
    U,
> {
    /// The first provider.
    pub closed spec fn inner(&self) -> PA {
        self.provider
    }

    /// The function that makes the second provider.
    pub closed spec fn function(&self) -> F {
        *self.function
    }

    pub fn new(provider: PA, function: F) -> (fresh: Self)
        ensures
            fresh.inner() == provider,
            fresh.function() == function,
    {
        Self { provider, function: Arc::new(function), _ty: PhantomData }
    }

    /// The second provider, if the first has a value.
    pub fn try_get_inner_provider(&self) -> (second: Option<PB>)
        requires
            self.ready(),
        ensures
            match second {
                None => self.inner().yields(None),
                Some(second) => second.ready() && exists|t: T| #[trigger]
                    self.inner().yields(Some(t)) && call_ensures(self.function(), (t,), second),
            },
    {
        match self.provider.try_get() {
            None => None,
            Some(t) => Some((self.function)(t)),
        }
    }
}

impl<
    PA: Provides<Output = T>,
    T,
    F: Fn(T) -> PB,
    PB: Provides<Output = U>,
    U,
> Provides for FlatMapProvider<PA, T, F, PB, U> {
    type Output = U;

    open spec fn ready(&self) -> bool {
        self.inner().ready() && forall|t: T| #[trigger]
            self.inner().yields(Some(t)) ==> call_requires(self.function(), (t,)) && forall|
                second: PB,
            | #[trigger] call_ensures(self.function(), (t,), second) ==> second.ready()
    }

    /// Absence where the first provider is absent, and what the second
    /// provider answers otherwise.
    open spec fn yields(&self, value: Option<U>) -> bool {
        (value is None && self.inner().yields(None)) || exists|t: T, second: PB| #[trigger]
            call_ensures(self.function(), (t,), second) && self.inner().yields(Some(t))
                && second.yields(value)
    }

    fn try_get(&self) -> (value: Option<U>) {
        match self.try_get_inner_provider() {
            None => None,
            Some(second) => second.try_get(),
        }
    }
}

impl<
    PA: Provides<Output = T> + Sourced,
    T,
    F: Fn(T) -> PB,
    PB: Provides<Output = U>,
    U,
> Sourced for FlatMapProvider<PA, T, F, PB, U> {
    /// Where the first provider's value comes from.
    open spec fn origin(&self, source: ProviderSource) -> bool {
        self.inner().origin(source)
    }

    fn sources(&self) -> (found: Vec<ProviderSource>) {
        self.provider.sources()
    }
}

/// A provider that asks a function for the value.
pub struct ProducerProvider<T, F> {
    function: Arc<F>,
    _ty: PhantomData<T>,
}

impl<T, F: Fn() -> T> ProducerProvider<T, F> {
    /// The function that is asked.
    pub closed spec fn function(&self) -> F {
        *self.function
    }

    pub fn new(function: F) -> (fresh: Self)
        ensures
            fresh.function() == function,
    {
        Self { function: Arc::new(function), _ty: PhantomData }
    }
}

impl<T, F: Fn() -> T> Provides for ProducerProvider<T, F> {
    type Output = T;

    open spec fn ready(&self) -> bool {
        call_requires(self.function(), ())
    }

    /// What the function gives, never absence.
    open spec fn yields(&self, value: Option<T>) -> bool {
        value matches Some(t) && call_ensures(self.function(), (), t)
    }

    fn try_get(&self) -> (value: Option<T>) {
        Some((self.function)())
    }
}

impl<T, F: Fn() -> T> Sourced for ProducerProvider<T, F> {
    /// What a function gives comes from nowhere.
    open spec fn origin(&self, source: ProviderSource) -> bool {
        false
    }

    fn sources(&self) -> (found: Vec<ProviderSource>) {
        Vec::new()
    }
}

/// A provider that asks a value source with the properties made for it.
pub struct ValueSourceProvider<Vs: ValueSource> {
    vs: Vs,
    props: Vs::Properties,
}

impl<Vs: ValueSource> ValueSourceProvider<Vs> {
    /// The value source that is asked.
    pub closed spec fn source(&self) -> Vs {
        self.vs
    }

    /// The properties that the source is asked with.
    pub closed spec fn properties(&self) -> Vs::Properties {
        self.props
    }

    pub fn new(vs: Vs, props: Vs::Properties) -> (fresh: Self)
        ensures
            fresh.source() == vs,
            fresh.properties() == props,
    {
        Self { vs, props }
    }
}

impl<Vs: ValueSource> Provides for ValueSourceProvider<Vs> {
    type Output = Vs::Output;

    open spec fn ready(&self) -> bool {
        true
    }

    /// What the value source reads from the properties.
    open spec fn yields(&self, value: Option<Vs::Output>) -> bool {
        self.source().reads(&self.properties(), value)
    }

    fn try_get(&self) -> (value: Option<Vs::Output>) {
        self.vs.get(&self.props)
    }
}

impl<Vs: ValueSource> Sourced for ValueSourceProvider<Vs> {
    /// What a value source reads comes from nowhere.
    open spec fn origin(&self, source: ProviderSource) -> bool {
        false
    }

    fn sources(&self) -> (found: Vec<ProviderSource>) {
        Vec::new()
    }
}

impl<T: Clone> Clone for JustProvider<T> {
    /// A provider of a clone of the value.
    fn clone(&self) -> (copy: Self)
        ensures
            cloned(self.value(), copy.value()),
    {
        Self(self.0.clone())
    }
}

impl<P: Provides<Output = T> + Clone, T> Clone for ProviderProvider<P, T> {
    /// A provider from a clone of the inner provider.
    fn clone(&self) -> (copy: Self)
        ensures
            cloned(self.inner(), copy.inner()),
    {
        Self { provider: self.provider.clone(), _ty: PhantomData }
    }
}

impl<P: Provides<Output = T> + Clone, T, F: Fn(T) -> U, U> Clone for MapProvider<P, T, F, U> {
    /// A provider that maps a clone of the inner provider with the same
    /// function.
    fn clone(&self) -> (copy: Self)
        ensures
            cloned(self.inner(), copy.inner()),
            copy.function() == self.function(),
    {
        Self { provider: self.provider.clone(), function: self.function.clone(), _ty: PhantomData }
    }
}

impl<P: Provides<Output = T> + Clone, T, F: Fn(T) -> Option<U>, U> Clone for AndThenProvider<
    P,
    T,
    F,
    U,
> {
    /// A provider that maps a clone of the inner provider with the same
    /// function.
    fn clone(&self) -> (copy: Self)
        ensures
            cloned(self.inner(), copy.inner()),
            copy.function() == self.function(),
    {
        Self { provider: self.provider.clone(), function: self.function.clone(), _ty: PhantomData }
    }
}

impl<
    PA: Provides<Output = T> + Clone,
    T,
    F: Fn(T) -> PB,
    PB: Provides<Output = U>,
    U,
> Clone for FlatMapProvider<PA, T, F, PB, U> {
    /// A provider that maps a clone of the first provider with the same
    /// function.
    fn clone(&self) -> (copy: Self)
        ensures
            cloned(self.inner(), copy.inner()),
            copy.function() == self.function(),
    {
        Self { provider: self.provider.clone(), function: self.function.clone(), _ty: PhantomData }
    }
}

impl<T, F: Fn() -> T> Clone for ProducerProvider<T, F> {
    /// A provider that asks the same function.
    fn clone(&self) -> (copy: Self)
        ensures
            copy.function() == self.function(),
    {
        Self { function: self.function.clone(), _ty: PhantomData }
    }
}

/// What a just-provider answers, written out: a clone of its value.
pub proof fn just_yields<T: Clone>(just: JustProvider<T>, value: Option<T>)
    ensures
        just.ready(),
        just.yields(value) <==> (value matches Some(got) && cloned(just.value(), got)),
{
}

/// What a provider of a provider answers, written out: what the inner one
/// answers.
pub proof fn delegate_yields<P: Provides<Output = T>, T>(
    outer: ProviderProvider<P, T>,
    value: Option<T>,
)
    ensures
        outer.ready() == outer.inner().ready(),
        outer.yields(value) <==> outer.inner().yields(value),
{
}

/// What a producer answers, written out: what its function returns.
pub proof fn producer_yields<T, F: Fn() -> T>(producer: ProducerProvider<T, F>, value: Option<T>)
    ensures
        producer.ready() == call_requires(producer.function(), ()),
        producer.yields(value) <==> (value matches Some(made) && call_ensures(
            producer.function(),
            (),
            made,
        )),
{
}

/// What a mapped source answers, written out: absence where the inner source
/// is absent, and what the function makes of the inner value otherwise.
pub proof fn map_yields<P: Provides<Output = T>, T, F: Fn(T) -> U, U>(
    mapped: MapProvider<P, T, F, U>,
    value: Option<U>,
)
    ensures
        mapped.ready() == (mapped.inner().ready() && forall|t: T| #[trigger]
            mapped.inner().yields(Some(t)) ==> call_requires(mapped.function(), (t,))),
        mapped.yields(value) <==> match value {
            None => mapped.inner().yields(None),
            Some(u) => exists|t: T| #[trigger]
                mapped.inner().yields(Some(t)) && call_ensures(mapped.function(), (t,), u),
        },
{
}

/// What a fallibly mapped source answers, written out: absence where the inner
/// source is absent, and what the function answers for the inner value
/// otherwise.
pub proof fn and_then_yields<P: Provides<Output = T>, T, F: Fn(T) -> Option<U>, U>(
    mapped: AndThenProvider<P, T, F, U>,
    value: Option<U>,
)
    ensures
        mapped.ready() == (mapped.inner().ready() && forall|t: T| #[trigger]
            mapped.inner().yields(Some(t)) ==> call_requires(mapped.function(), (t,))),
        mapped.yields(value) <==> (value is None && mapped.inner().yields(None)) || exists|t: T|
            #[trigger] mapped.inner().yields(Some(t)) && call_ensures(
                mapped.function(),
                (t,),
                value,
            ),
{
}

/// What a flat-mapped source answers, written out: absence where the first
/// source is absent, and what the source that the function makes of the first
/// value answers otherwise.
pub proof fn flat_map_yields<
    PA: Provides<Output = T>,
    T,
    F: Fn(T) -> PB,
    PB: Provides<Output = U>,
    U,
>(mapped: FlatMapProvider<PA, T, F, PB, U>, value: Option<U>)
    ensures
        mapped.ready() == (mapped.inner().ready() && forall|t: T| #[trigger]
            mapped.inner().yields(Some(t)) ==> call_requires(mapped.function(), (t,)) && forall|
                second: PB,
            | #[trigger] call_ensures(mapped.function(), (t,), second) ==> second.ready()),
        mapped.yields(value) <==> (value is None && mapped.inner().yields(None)) || exists|
            t: T,
            second: PB,
        | #[trigger]
            call_ensures(mapped.function(), (t,), second) && mapped.inner().yields(Some(t))
                && second.yields(value),
{
}

/// What a value source provider answers, written out: what its source reads
/// from its properties.
pub proof fn value_source_yields<Vs: ValueSource>(
    provider: ValueSourceProvider<Vs>,
    value: Option<Vs::Output>,
)
    ensures
        provider.ready(),
        provider.yields(value) <==> provider.source().reads(&provider.properties(), value),
{
}

/// Provider extension trait: composition without memoization.
pub trait ProviderExt<T>: Provider<T> + Sized {
    /// Map the output of a type into a different type.
    fn map<U, F: Fn(T) -> U>(self, f: F) -> (mapped: MapProvider<Self, T, F, U>)
        ensures
            mapped.inner() == self,
            mapped.function() == f,
    {
        MapProvider::new(self, f)
    }

    /// Fallibly maps the output.
    fn and_then<U, F: Fn(T) -> Option<U>>(self, f: F) -> (mapped: AndThenProvider<Self, T, F, U>)
        ensures
            mapped.inner() == self,
            mapped.function() == f,
    {
        AndThenProvider::new(self, f)
    }

    /// Output into a different provider.
    fn flat_map<PB: Provides<Output = U>, U, F: Fn(T) -> PB>(self, f: F) -> (mapped:
        FlatMapProvider<Self, T, F, PB, U>)
        ensures
            mapped.inner() == self,
            mapped.function() == f,
    {
        FlatMapProvider::new(self, f)
    }
}

impl<T, P: Provider<T>> ProviderExt<T> for P {
}

/// A provider factory.
#[derive(Clone, Copy, Debug)]
pub struct ProviderFactory {}

impl ProviderFactory {
    /// Creates a factory.
    pub fn new() -> Self {
        Self {  }
    }

    /// Creates a provider that just returns a given value.
    pub fn just<T: Clone>(&self, t: T) -> (made: JustProvider<T>)
        ensures
            made.value() == t,
    {
        JustProvider::new(t)
    }

    /// Creates a provider from a function. The function is called each time the
    /// provider is asked.
    pub fn provider<T, F: Fn() -> T>(&self, p: F) -> (made: ProducerProvider<T, F>)
        ensures
            made.function() == p,
    {
        ProducerProvider::new(p)
    }

    /// Creates a provider from a value source, whose properties are made from
    /// the beans of the factory. The source is asked at most once.
    pub fn value_source<Vs: ValueSource, U>(&self, vs: Vs) -> (made: MemoProvider<
        Vs::Output,
        ValueSourceProvider<Vs>,
    >) where
        ProviderFactory: BeanProvider<U>,
        Vs::Properties: FromBeanProvider<U>,
        Vs::Output: Clone,

        ensures
            made.source().source() == vs,
            exists|beans: U| #[trigger]
                Vs::Properties::built_from(made.source().properties(), beans) && self.provides(
                    beans,
                ),
    {
        let props: Vs::Properties = FromBeanProvider::from_bean_provider(self);
        proof {
            let beans = choose|beans: U| #[trigger]
                self.provides(beans) && Vs::Properties::built_from(props, beans);
            assert(Vs::Properties::built_from(props, beans) && self.provides(beans));
        }
        MemoProvider::new(ValueSourceProvider::new(vs, props))
    }

    /// Creates a provider from a value source, configuring the created
    /// properties.
    pub fn value_source_with<Vs: ValueSource, U, A: FnOnce(Vs::Properties) -> Vs::Properties>(
        &self,
        vs: Vs,
        action: A,
    ) -> (made: MemoProvider<Vs::Output, ValueSourceProvider<Vs>>) where
        ProviderFactory: BeanProvider<U>,
        Vs::Properties: FromBeanProvider<U>,
        Vs::Output: Clone,

        requires
            forall|beans: U, raw: Vs::Properties| #[trigger]
                Vs::Properties::built_from(raw, beans) && self.provides(beans) ==> call_requires(
                    action,
                    (raw,),
                ),
        ensures
            made.source().source() == vs,
            exists|beans: U, raw: Vs::Properties| #[trigger]
                Vs::Properties::built_from(raw, beans) && self.provides(beans) && call_ensures(
                    action,
                    (raw,),
                    made.source().properties(),
                ),
    {
        let raw: Vs::Properties = FromBeanProvider::from_bean_provider(self);
        let props = action(raw);
        MemoProvider::new(ValueSourceProvider::new(vs, props))
    }
}

} // verus!
