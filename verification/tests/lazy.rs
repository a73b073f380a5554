use spider_core::lazy::configure::ConfigureOnCreate;
use spider_core::lazy::list::{AddProperty, ListProperty};
use spider_core::lazy::properties::{Property, PropertyState, SetProperty};
use spider_core::lazy::provider::{
    AndThenProvider, FlatMapProvider, JustProvider, MapProvider, ProducerProvider, ProviderExt,
    ProviderProvider, ProviderSource, Sourced,
};
use spider_core::lazy::providers;
use spider_core::lazy::providers::{
    and_then, from_callable, from_fallible_callable, provider, wrap, zip, Memo, ProviderFactory,
    Provides,
};
use spider_core::lazy::value_source::ValueSource;
use std::sync::atomic::{AtomicUsize, Ordering};
use std::sync::Arc;
use std::time::Instant;

#[test]
fn test_provider() {}

#[test]
fn test_file() {}

#[test]
fn test_configure_on_create() {
    let mut c = ConfigureOnCreate::new(String::default);
    assert_eq!(c.get(), None);
    c.configure(|mut s: String| {
        s.push_str("Hello, world!");
        s
    });
    assert_eq!(c.get(), None);

    let s = c.init_and_get().clone();
    assert_eq!(s, "Hello, world!");
}

#[test]
fn test_just_provider() {
    let factory = ProviderFactory::new(());
    let s = factory.provider(|| 13);
    let p = s.clone();
    assert_eq!(s.get(), 13);
    assert_eq!(p.get(), 13);
}

#[test]
fn test_just_provider_to_boxed() {
    let factory = ProviderFactory::new(());
    let s = factory.provider(|| 13);
    let p = s.clone();
    assert_eq!(s.get(), 13);
    assert_eq!(p.get(), 13);
}

#[derive(Default)]
struct InstantValueSource;

impl ValueSource for InstantValueSource {
    type Properties = ();
    type Output = Instant;

    fn get(&self, _properties: &Self::Properties) -> Option<Instant> {
        Some(Instant::now())
    }
}

#[test]
fn test_value_source_provider() {
    let factory = ProviderFactory::new(());
    let vs = factory.of::<InstantValueSource, _>();
    let now = vs.get();
    let now2 = vs.get();
    assert_eq!(now, now2);
}

#[test]
fn test_provider_map() {
    let factory = ProviderFactory::new(());
    let s = factory.provider(|| 0);
    let mapped = s.map(|i| i + 2);
    assert_eq!(mapped.get(), 2);
}

#[test]
fn test_provider_and_then() {
    let factory = ProviderFactory::new(());
    let s = factory.provider(|| 0);
    let mapped = s.and_then(|i| Some(i + 2));
    assert_eq!(mapped.get(), 2);
}

#[test]
fn test_provider_zip() {
    let factory = ProviderFactory::new(());
    let s = factory.provider(|| 1);
    let t = factory.provider(|| 2);
    let mapped = s.zip(t);
    assert_eq!(mapped.get(), (1, 2));
}

#[test]
fn test_prop_from_provider() {
    let factory = ProviderFactory::new(());
    let provider = factory.provider(|| "hello, world!");

    let mut property: Property<&str, _> = Property::empty(None);
    assert_eq!(property.try_get(), None);
    property.set(&provider);
    assert_eq!(property.try_get(), Some("hello, world!"));
}

#[test]
fn test_prop_from_prop() {
    let factory = ProviderFactory::new(());
    let provider = factory.provider(|| "hello, world!");

    let mut property: Property<&str, _> = Property::empty(None);
    property.set(&provider);
    let mut property2: Property<&str, _> = Property::empty(None);
    property2.set(&property);
    assert_eq!(property.try_get(), Some("hello, world!"));
    assert_eq!(property2.try_get(), Some("hello, world!"));
}

fn counting(counter: &Arc<AtomicUsize>, value: i32) -> impl Fn() -> i32 {
    let counter = counter.clone();
    move || {
        counter.fetch_add(1, Ordering::SeqCst);
        value
    }
}

#[test]
fn provider_computes_once_through_clones() {
    let counter = Arc::new(AtomicUsize::new(0));
    let p = from_callable(counting(&counter, 5));
    assert_eq!(counter.load(Ordering::SeqCst), 0);
    let q = p.clone();
    assert_eq!(p.get(), 5);
    assert_eq!(q.get(), 5);
    assert_eq!(p.try_get(), Some(5));
    assert_eq!(counter.load(Ordering::SeqCst), 1);
}

#[test]
fn absence_is_memoized_too() {
    let counter = Arc::new(AtomicUsize::new(0));
    let inner = counter.clone();
    let p = from_fallible_callable(move || -> Option<i32> {
        inner.fetch_add(1, Ordering::SeqCst);
        None
    });
    assert_eq!(p.try_get(), None);
    assert_eq!(p.clone().try_get(), None);
    assert_eq!(counter.load(Ordering::SeqCst), 1);
}

#[test]
fn mapped_provider_calls_source_and_function_once() {
    let sources = Arc::new(AtomicUsize::new(0));
    let calls = Arc::new(AtomicUsize::new(0));
    let seen = calls.clone();
    let mapped = providers::map(from_callable(counting(&sources, 20)), move |x| {
        seen.fetch_add(1, Ordering::SeqCst);
        x + 1
    });
    assert_eq!(sources.load(Ordering::SeqCst), 0);
    assert_eq!(mapped.get(), 21);
    assert_eq!(mapped.clone().get(), 21);
    assert_eq!(sources.load(Ordering::SeqCst), 1);
    assert_eq!(calls.load(Ordering::SeqCst), 1);
}

#[test]
fn memo_state_machine() {
    let counter = Arc::new(AtomicUsize::new(0));
    let mut memo = Memo::Pending(ProducerProvider::new(counting(&counter, 3)));
    assert!(!memo.is_done());
    assert_eq!(memo.force(), Some(3));
    assert!(memo.is_done());
    assert_eq!(memo.force(), Some(3));
    assert_eq!(counter.load(Ordering::SeqCst), 1);
}

#[test]
fn composition_laws_on_values() {
    let f = |x: i32| x * 3;
    let g = |x: i32| x - 1;
    assert_eq!(providers::map(provider(7), f).get(), f(provider(7).get()));
    assert_eq!(and_then(provider(7), move |x| Some(g(x))).get(), g(provider(7).get()));
    assert_eq!(zip(provider(1), provider("b")).get(), (1, "b"));
    assert_eq!(wrap(JustProvider::new(4)).get(), 4);
}

#[test]
fn flat_map_asks_the_second_provider() {
    let calls = Arc::new(AtomicUsize::new(0));
    let seen = calls.clone();
    let mapped = provider(2).flat_map(move |x| {
        seen.fetch_add(1, Ordering::SeqCst);
        provider(x * 21)
    });
    assert_eq!(mapped.get(), 42);
    assert_eq!(mapped.provider().get(), 42);
    assert_eq!(calls.load(Ordering::SeqCst), 1);
    let absent = providers::flat_map(from_fallible_callable(|| -> Option<i32> { None }), provider);
    assert_eq!(absent.try_get(), None);
    let inner_absent = providers::flat_map(provider(1), |_| {
        from_fallible_callable(|| -> Option<i32> { None })
    });
    assert_eq!(inner_absent.try_get(), None);
}

#[test]
fn property_as_provider_keeps_its_first_answer() {
    let mut property: Property<i32, JustProvider<i32>> = Property::empty(None);
    property.set(1);
    let snapshot = property.provider();
    assert_eq!(snapshot.get(), 1);
    property.set(2);
    assert_eq!(snapshot.get(), 1);
    assert_eq!(property.get(), 2);
}

#[test]
fn absence_propagates_through_composition() {
    let absent = || from_fallible_callable(|| -> Option<i32> { None });
    assert_eq!(providers::map(absent(), |x| x + 1).try_get(), None);
    assert_eq!(and_then(absent(), |x| Some(x + 1)).try_get(), None);
    assert_eq!(and_then(provider(1), |_| -> Option<i32> { None }).try_get(), None);
    assert_eq!(zip(absent(), provider(1)).try_get(), None);
    assert_eq!(zip(provider(1), absent()).try_get(), None);
}

#[test]
fn stateless_sources() {
    let counter = Arc::new(AtomicUsize::new(0));
    let producer = ProducerProvider::new(counting(&counter, 2));
    assert_eq!(producer.try_get(), Some(2));
    assert_eq!(producer.try_get(), Some(2));
    assert_eq!(counter.load(Ordering::SeqCst), 2);
    assert_eq!(ProviderProvider::new(JustProvider::new(9)).get(), 9);
    assert_eq!(MapProvider::new(JustProvider::new(9), |x| x + 1).get(), 10);
    assert_eq!(AndThenProvider::new(JustProvider::new(9), |x| Some(x * 2)).get(), 18);
    assert_eq!(
        AndThenProvider::new(JustProvider::new(9), |_| -> Option<i32> { None }).try_get(),
        None
    );
    let flat = FlatMapProvider::new(JustProvider::new(2), |x| JustProvider::new(x + 40));
    assert_eq!(flat.get(), 42);
    assert_eq!(flat.try_get_inner_provider().unwrap().get(), 42);
    assert_eq!(JustProvider::new(1).map(|x| x + 1).and_then(|x| Some(x + 1)).get(), 3);
    assert_eq!(JustProvider::new(1).flat_map(|x| JustProvider::new(x + 1)).get(), 2);
}

#[test]
fn stateless_sources_clone() {
    let mapped = MapProvider::new(ProducerProvider::new(|| 1), |x| x + 1);
    assert_eq!(mapped.clone().get(), 2);
    let then = AndThenProvider::new(JustProvider::new(1), |x| Some(x + 2));
    assert_eq!(then.clone().get(), 3);
    let flat = FlatMapProvider::new(ProviderProvider::new(JustProvider::new(1)), |x| {
        JustProvider::new(x + 3)
    });
    assert_eq!(flat.clone().get(), 4);
    let zipped = spider_core::lazy::providers::ZipProvider::new(JustProvider::new(1), flat);
    assert_eq!(zipped.clone().get(), (1, 4));
    let fallible = spider_core::lazy::providers::FallibleProducer::new(|| Some(5));
    assert_eq!(fallible.clone().try_get(), Some(5));
}

#[test]
fn unit_factory() {
    let factory = spider_core::lazy::provider::ProviderFactory::new();
    assert_eq!(factory.just(3).get(), 3);
    assert_eq!(factory.provider(|| "made").get(), "made");
    let now = factory.value_source::<InstantValueSource, ()>(InstantValueSource);
    assert_eq!(now.get(), now.get());
    let again = factory.value_source_with::<InstantValueSource, (), _>(InstantValueSource, |p| p);
    assert!(again.try_get().is_some());
}

#[test]
fn factory_of_with_and_wrap() {
    let factory = ProviderFactory::new(());
    let configured = factory.of_with::<InstantValueSource, (), _>(|p| p);
    assert_eq!(configured.get(), configured.clone().get());
    assert_eq!(factory.wrap(JustProvider::new('x')).get(), 'x');
}

#[test]
fn property_delegation() {
    let mut property: Property<i32, _> = Property::empty(Some("answer".to_string()));
    assert_eq!(property.try_get(), None);
    property.set(1);
    assert_eq!(property.try_get(), Some(1));
    assert_eq!(property.get(), 1);
    let w = from_callable(|| 2);
    property.set(&w);
    assert_eq!(property.try_get(), Some(2));
    property.set(3);
    assert_eq!(property.try_get(), Some(3));
    assert_eq!(property.describe(), "property answer");
    let unnamed: Property<i32, JustProvider<i32>> = Property::empty(None);
    assert_eq!(unnamed.describe(), "property ?");
}

#[test]
fn property_clones_share_state() {
    let mut property: Property<&str, JustProvider<&str>> = Property::empty(None);
    let reader = property.clone();
    assert_eq!(reader.try_get(), None);
    property.set("set later");
    assert_eq!(reader.try_get(), Some("set later"));
}

#[test]
fn property_state_machine() {
    let mut state: PropertyState<i32, JustProvider<i32>> = PropertyState::empty();
    assert_eq!(state.resolve(), None);
    state.set(4);
    assert_eq!(state.resolve(), Some(4));
    state.set_from(&provider(5));
    assert_eq!(state.resolve(), Some(5));
    state.set(6);
    assert_eq!(state.resolve(), Some(6));
}

#[test]
fn configure_after_creation_applies_at_once() {
    let mut c: ConfigureOnCreate<i32, _, Box<dyn FnOnce(i32) -> i32>> =
        ConfigureOnCreate::new(|| 1);
    assert!(!c.is_init());
    c.configure(Box::new(|x| x + 1));
    c.configure(Box::new(|x| x * 10));
    assert_eq!(*c.init_and_get(), 20);
    assert!(c.is_init());
    c.configure(Box::new(|x| x + 3));
    assert_eq!(c.get(), Some(&23));
    *c.get_mut().unwrap() = 0;
    assert_eq!(*c.init_and_get(), 0);
}

#[test]
fn configure_on_create_runs_lazily_and_once() {
    let counter = Arc::new(AtomicUsize::new(0));
    let mut c = ConfigureOnCreate::new(counting(&counter, 1));
    c.configure(|x| x);
    assert!(c.get_mut().is_none());
    assert_eq!(counter.load(Ordering::SeqCst), 0);
    c.init_and_get();
    c.init_and_get();
    assert_eq!(counter.load(Ordering::SeqCst), 1);
}

#[test]
fn test_list_property() {
    let property = ListProperty::<i32, JustProvider<i32>, JustProvider<Vec<i32>>>::new();
    assert_eq!(property.get().len(), 0);
}

#[test]
fn test_list_property_add() {
    let mut property = ListProperty::<i32, JustProvider<i32>, JustProvider<Vec<i32>>>::new();
    property.add(1);
    assert_eq!(property.get().len(), 1);
}

#[test]
fn test_list_property_add_all() {
    let mut property = ListProperty::<i32, JustProvider<i32>, JustProvider<Vec<i32>>>::new();
    property.add_all(vec![1, 2, 3]);
    assert_eq!(property.get().len(), 3);
}

#[test]
fn test_list_property_add_all_from() {
    let provider_factory = spider_core::lazy::provider::ProviderFactory::new();
    let boxed: Vec<Box<dyn Fn() -> Vec<i32>>> =
        vec![Box::new(|| vec![1, 2, 3]), Box::new(|| vec![4, 5, 6])];
    let mut property = ListProperty::<i32, JustProvider<i32>, _>::new();
    for source in boxed {
        property.add_all_from(provider_factory.provider(source));
    }
    let vec = property.get();
    assert_eq!(vec.len(), 6);
    assert_eq!(vec, [1, 2, 3, 4, 5, 6]);
}

#[test]
fn test_list_property_extend() {
    let provider_factory = spider_core::lazy::provider::ProviderFactory::new();
    let mut property = ListProperty::<i32, _, _>::new();
    property.extend(vec![
        provider_factory.just(1),
        provider_factory.just(2),
        provider_factory.just(3),
    ]);
    property.add_all_from(provider_factory.provider(|| vec![4, 5, 6]));
    let vec = property.get();
    assert_eq!(vec.len(), 6);
    assert_eq!(vec, [1, 2, 3, 4, 5, 6]);
}

#[test]
fn list_property_pieces_in_order_and_absence() {
    type Absent = spider_core::lazy::providers::Provider<i32, JustProvider<i32>>;
    let mut property = ListProperty::<i32, Absent, JustProvider<Vec<i32>>>::new();
    property.add(1);
    property.add_from(provider(2));
    property.add_all(vec![3, 4]);
    property.extend(vec![provider(5), provider(6)]);
    property.add_all_from(JustProvider::new(vec![7]));
    assert_eq!(property.try_get(), Some(vec![1, 2, 3, 4, 5, 6, 7]));
    property.set(vec![9]);
    assert_eq!(property.get(), [9]);
    property.set_from(JustProvider::new(vec![8, 8]));
    assert_eq!(property.get(), [8, 8]);
    AddProperty::add_all(&mut property, vec![1]);
    assert_eq!(property.get(), [8, 8, 1]);

    let mut holes = ListProperty::<i32, _, JustProvider<Vec<i32>>>::new();
    holes.add(1);
    holes.add_from(from_fallible_callable(|| -> Option<i32> { None }));
    holes.add(2);
    assert_eq!(holes.try_get(), None);
}

fn shareable<T: Send + Sync>(_: &T) {}

#[test]
fn handles_can_cross_threads() {
    let p = provider(1);
    shareable(&p);
    let property: Property<i32, JustProvider<i32>> = Property::empty(None);
    shareable(&property);
    let made = from_callable(|| 2);
    shareable(&made);
}

struct FromTask(i32);

impl Provides for FromTask {
    type Output = i32;

    fn try_get(&self) -> Option<i32> {
        Some(self.0)
    }
}

impl Sourced for FromTask {
    fn sources(&self) -> Vec<ProviderSource> {
        vec![ProviderSource::Task()]
    }
}

#[test]
fn sources_are_gathered() {
    assert!(JustProvider::new(1).sources().is_empty());
    assert!(ProducerProvider::new(|| 1).sources().is_empty());
    assert!(MapProvider::new(JustProvider::new(1), |x| x).sources().is_empty());
    assert_eq!(MapProvider::new(FromTask(1), |x| x + 1).sources(), vec![ProviderSource::Task()]);
    assert_eq!(
        AndThenProvider::new(ProviderProvider::new(FromTask(1)), Some).sources(),
        vec![ProviderSource::Task()]
    );
    assert_eq!(
        FlatMapProvider::new(FromTask(1), JustProvider::new).sources(),
        vec![ProviderSource::Task()]
    );
    let zipped = spider_core::lazy::providers::ZipProvider::new(JustProvider::new(1), FromTask(2));
    assert_eq!(zipped.sources(), vec![ProviderSource::Task()]);

    let mut list = ListProperty::<i32, FromTask, JustProvider<Vec<i32>>>::new();
    assert!(list.sources().is_empty());
    list.add(1);
    list.add_all(vec![2, 3]);
    list.add_all_from(JustProvider::new(vec![4]));
    assert!(list.sources().is_empty());
    list.add_from(FromTask(5));
    list.extend(vec![FromTask(6), FromTask(7)]);
    assert_eq!(list.sources().len(), 3);
    assert!(list.sources().iter().all(|source| *source == ProviderSource::Task()));
    assert_eq!(list.get(), [1, 2, 3, 4, 5, 6, 7]);
}
