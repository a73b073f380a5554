//! Functions that make providers.

use vstd::prelude::*;
use crate::beans::{BeanProvider, FromBeanProvider};
use crate::lazy::provider::{JustProvider, ProducerProvider, ValueSourceProvider};
use crate::lazy::providers::{FallibleProducer, Provider, Provides};
use crate::lazy::value_source::ValueSource;

verus! {

/// Makes providers, with a bean provider at hand for the sources that need
/// beans.
#[derive(Debug)]
pub struct ProviderFactory<P>(P);

impl<P> ProviderFactory<P> {
    /// The bean provider of the factory.
    pub closed spec fn beans(&self) -> P {
        self.0
    }

    /// Creates a new factory around a bean provider.
    pub fn new(t: P) -> (factory: Self)
        ensures
            factory.beans() == t,
    {
        Self(t)
    }

    /// Creates a provider that generates a value from a function, on the first
    /// call of `try_get` and never again.
    pub fn provider<T: Clone, U: Fn() -> T>(&self, just: U) -> (made: Provider<
        T,
        ProducerProvider<T, U>,
    >)
        requires
            call_requires(just, ()),
        ensures
            made.source().function() == just,
    {
        from_callable(just)
    }

    /// Creates a provider that memoizes what another source provides.
    pub fn wrap<T: Clone, S: Provides<Output = T>>(&self, provides: S) -> (made: Provider<T, S>)
        requires
            provides.ready(),
        ensures
            made.source() == provides,
    {
        wrap(provides)
    }

    /// Create a provider of a value source. The source is the default value of
    /// its type, and its properties are made from the beans of the factory.
    pub fn of<Vs: ValueSource + Default, U>(&self) -> (made: Provider<
        Vs::Output,
        ValueSourceProvider<Vs>,
    >) where P: BeanProvider<U>, Vs::Properties: FromBeanProvider<U>, Vs::Output: Clone
        ensures
            call_ensures(Vs::default, (), made.source().source()),
            exists|beans: U| #[trigger]
                Vs::Properties::built_from(made.source().properties(), beans)
                    && self.beans().provides(beans),
    {
        let vs = Vs::default();
        let properties: Vs::Properties = FromBeanProvider::from_bean_provider(&self.0);
        proof {
            let beans = choose|beans: U| #[trigger]
                self.0.provides(beans) && Vs::Properties::built_from(properties, beans);
            assert(Vs::Properties::built_from(properties, beans) && self.beans().provides(beans));
        }
        Provider::new(ValueSourceProvider::new(vs, properties))
    }

    /// Create a provider of a value source whose properties, made from the
    /// beans of the factory, are configured by `cfg` first.
    pub fn of_with<Vs: ValueSource + Default, U, C: FnOnce(Vs::Properties) -> Vs::Properties>(
        &self,
        cfg: C,
    ) -> (made: Provider<Vs::Output, ValueSourceProvider<Vs>>) where
        P: BeanProvider<U>,
        Vs::Properties: FromBeanProvider<U>,
        Vs::Output: Clone,

        requires
            forall|beans: U, raw: Vs::Properties| #[trigger]
                Vs::Properties::built_from(raw, beans) && self.beans().provides(beans)
                    ==> call_requires(cfg, (raw,)),
        ensures
            call_ensures(Vs::default, (), made.source().source()),
            exists|beans: U, raw: Vs::Properties| #[trigger]
                Vs::Properties::built_from(raw, beans) && self.beans().provides(beans)
                    && call_ensures(cfg, (raw,), made.source().properties()),
    {
        let vs = Vs::default();
        let raw: Vs::Properties = FromBeanProvider::from_bean_provider(&self.0);
        let properties = cfg(raw);
        Provider::new(ValueSourceProvider::new(vs, properties))
    }
}

/// Creates a provider of `t`.
pub fn provider<T: Clone>(t: T) -> (made: Provider<T, JustProvider<T>>)
    ensures
        made.source().value() == t,
{
    Provider::new(JustProvider::new(t))
}

/// Creates a provider that memoizes what another source provides.
pub fn wrap<T: Clone, S: Provides<Output = T>>(provides: S) -> (made: Provider<T, S>)
    requires
        provides.ready(),
    ensures
        made.source() == provides,
{
    Provider::new(provides)
}

/// Creates a provider of what a function gives.
pub fn from_callable<T: Clone, U: Fn() -> T>(just: U) -> (made: Provider<T, ProducerProvider<T, U>>)
    requires
        call_requires(just, ()),
    ensures
        made.source().function() == just,
{
    Provider::new(ProducerProvider::new(just))
}

/// Creates a provider of what a function gives, which may be absence.
pub fn from_fallible_callable<T: Clone, U: Fn() -> Option<T>>(just: U) -> (made: Provider<
    T,
    FallibleProducer<T, U>,
>)
    requires
        call_requires(just, ()),
    ensures
        made.source().function() == just,
{
    Provider::new(FallibleProducer::new(just))
}

} // verus!
