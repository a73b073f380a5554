use spider_core::beans::{
    BeanError, BeanProvider, BeanProviderExt, BeanResult, Beans, BeansParam, FromBeanProvider,
    Inject, Multi, Single,
};
use spider_core::lazy::provider::ProviderFactory;
use spider_core::value::{TypeTag, Typed, Value};

struct StringProvider;

impl BeanProvider<String> for StringProvider {
    fn get_bean(&self) -> String {
        "hello world".to_string()
    }
}

#[derive(Default, PartialEq, Debug)]
struct StringBean(String);

impl Inject<String> for StringBean {
    fn inject<P: BeanProvider<String>>(&mut self, bean_provider: &P) {
        self.0 = bean_provider.get_bean();
    }
}

#[test]
fn test_bean_provider() {
    let (a, b): (String, String) = StringProvider.get_bean();
    assert_eq!(a, b);
}

#[test]
fn test_bean_provider_ext() {
    let (mut a, mut b): (StringBean, StringBean) = (Default::default(), Default::default());
    StringProvider.inject_into(&mut a).inject_into(&mut b);
    assert!(!a.0.is_empty());
    assert_eq!(a, b);
}

#[test]
fn test_inject() {
    let provider = StringProvider;
    let bean = StringBean::from_bean_provider(&provider);
    assert_eq!(&bean.0, "hello world");
}

#[test]
fn test_create_beans() {
    let mut beans = Beans::new();
    beans.insert("ProviderFactory", "factory").expect("could not add");
    println!("beans: {:#?}", beans);
    let _ = ProviderFactory::new();
}

#[test]
fn test_no_duplicate_beans() {
    let mut beans = Beans::new();
    beans.insert("ProviderFactory", "factory").expect("could not add");
    beans.insert("ProviderFactory", "factory").expect_err("could not add again");
    println!("beans: {:#?}", beans);
}

#[test]
fn test_get_all() {
    let mut beans = Beans::new();
    beans.insert("a", 1_i32).unwrap();
    beans.insert("b", 2_i32).unwrap();
    assert_eq!(beans.get_all::<i32>().iter().count(), 2);
    assert_eq!(beans.get_all::<u32>().iter().count(), 0);
}

#[test]
fn test_get_mut() {
    let mut beans = Beans::new();
    beans.insert("a", 1_i32).unwrap();
    assert_eq!(*beans.get::<i32>("a").unwrap(), 1);
    *beans.get_mut::<i32>("a").unwrap() = 2;
    assert_eq!(*beans.get::<i32>("a").unwrap(), 2);
}

fn immediate(_: ()) -> BeanResult<i32> {
    Ok(1)
}

fn sum(all: Multi<i32>) -> BeanResult<i32> {
    let mut total = 0;
    let mut iter = all.iter();
    while let Some(s) = iter.next() {
        total += *s;
    }
    Ok(total)
}

#[test]
fn test_create_from_beans() {
    let mut beans = Beans::new();
    beans.init("a", immediate).expect("could not create a");
    beans.init("b", immediate).expect("could not create b");
    beans.init("c", immediate).expect("could not create b");
    assert_eq!(*beans.get::<i32>("a").unwrap(), 1);
    let sum = beans.create(sum).expect("could not create sum");
    assert_eq!(sum, 3);
}

#[test]
fn test_all_tuples() {
    let mut beans = Beans::new();
    beans.insert("n", 5_i32).unwrap();
    let mut state = <() as BeansParam>::init_state(&beans);
    assert!(<() as BeansParam>::get_param(&mut state, &beans).is_ok());
    type One = (Single<i32>,);
    let mut state = One::init_state(&beans);
    assert_eq!(One::get_param(&mut state, &beans).ok().unwrap().0 .0, 5);
    type Sixteen = (
        Single<i32>, Multi<i32>, Single<i32>, Multi<u8x>, Single<i32>, Multi<i32>, Single<i32>,
        Multi<i32>, Single<i32>, Multi<i32>, Single<i32>, Multi<i32>, Single<i32>, Multi<i32>,
        Single<i32>, Multi<bool>,
    );
    let mut state = Sixteen::init_state(&beans);
    let all = Sixteen::get_param(&mut state, &beans).ok().unwrap();
    assert_eq!(all.0 .0, 5);
    assert_eq!(all.1.len(), 1);
    assert_eq!(all.3.len(), 0);
    assert_eq!(all.14 .0, 5);
    assert_eq!(all.15.len(), 0);
    let sixteen: (
        (), (), (), (), (), (), (), (), (), (), (), (), (), (), (), (),
    ) = StringProvider.get_bean();
    assert_eq!(sixteen.15, ());
}

type u8x = u64;

#[test]
fn insert_twice_keeps_the_first_value() {
    let mut beans = Beans::new();
    beans.insert("id", 1_i32).unwrap();
    match beans.insert("id", 2_i32) {
        Err(BeanError::AlreadyExists { name }) => assert_eq!(name, "id"),
        other => panic!("unexpected {:?}", other),
    }
    assert_eq!(*beans.get::<i32>("id").unwrap(), 1);
    match beans.insert("id", "other type") {
        Err(BeanError::AlreadyExists { name }) => assert_eq!(name, "id"),
        other => panic!("unexpected {:?}", other),
    }
    assert_eq!(beans.get_ids(), vec!["id".to_string()]);
}

#[test]
fn get_of_the_wrong_type_is_an_error() {
    let mut beans = Beans::new();
    beans.insert("a", 1_i32).unwrap();
    match beans.get::<u32>("a") {
        Err(BeanError::WrongType { name, expected, actual }) => {
            assert_eq!(name, "a");
            assert_eq!(expected, "u32");
            assert_eq!(actual, "i32");
        }
        other => panic!("unexpected {:?}", other),
    }
    match beans.get_mut::<String>("a") {
        Err(BeanError::WrongType { name, expected, actual }) => {
            assert_eq!(name, "a");
            assert_eq!(expected, "alloc::string::String");
            assert_eq!(actual, "i32");
        }
        other => panic!("unexpected {:?}", other.map(|_| ())),
    }
    assert_eq!(*beans.get::<i32>("a").unwrap(), 1);
}

#[test]
fn get_of_a_missing_id_is_not_found() {
    let mut beans = Beans::new();
    match beans.get::<i32>("nobody") {
        Err(BeanError::NotFound { name }) => assert_eq!(name, "nobody"),
        other => panic!("unexpected {:?}", other),
    }
    assert!(matches!(beans.get_mut::<i32>("nobody"), Err(BeanError::NotFound { .. })));
}

#[test]
fn multi_query_counts_only_its_type() {
    let mut beans = Beans::new();
    for (i, id) in ["t0", "t1", "t2", "t3"].iter().enumerate() {
        beans.insert(id, i as i32).unwrap();
    }
    assert_eq!(beans.get_all::<i32>().len(), 4);
    for id in ["u0", "u1", "u2"] {
        beans.insert(id, id.to_string()).unwrap();
    }
    assert_eq!(beans.get_all::<i32>().len(), 4);
    assert_eq!(beans.get_all::<String>().len(), 3);
    let values: Vec<i32> = beans.get_all::<i32>().into_iter().copied().collect();
    assert_eq!(values, vec![0, 1, 2, 3]);
}

#[test]
fn ids_come_in_insertion_order() {
    let mut beans = Beans::new();
    beans.insert("z", 1_i32).unwrap();
    beans.insert("m", true).unwrap();
    beans.insert("a", 2_i32).unwrap();
    assert_eq!(beans.get_ids(), vec!["z", "m", "a"]);
    assert_eq!(beans.get_ids_of::<i32>(), vec!["z", "a"]);
    assert_eq!(beans.get_ids_of::<bool>(), vec!["m"]);
    assert!(beans.get_ids_of::<char>().is_empty());
}

#[test]
fn get_mut_changes_only_its_bean() {
    let mut beans = Beans::new();
    beans.insert("a", "first".to_string()).unwrap();
    beans.insert("b", "second".to_string()).unwrap();
    beans.get_mut::<String>("a").unwrap().push_str("!");
    assert_eq!(beans.get::<String>("a").unwrap(), "first!");
    assert_eq!(beans.get::<String>("b").unwrap(), "second");
    assert_eq!(beans.get_ids(), vec!["a", "b"]);
}

#[test]
fn create_does_not_store() {
    let mut beans = Beans::new();
    beans.insert("n", 20_i32).unwrap();
    let doubled = beans.create(|n: Single<i32>| Ok(n.0 * 2)).unwrap();
    assert_eq!(doubled, 40);
    assert_eq!(beans.get_ids().len(), 1);
}

#[test]
fn single_fails_on_none_and_on_many() {
    let mut beans = Beans::new();
    match beans.create(|n: Single<i32>| Ok(n.0)) {
        Err(BeanError::NotFound { name }) => assert_eq!(name, "i32"),
        other => panic!("unexpected {:?}", other),
    }
    beans.insert("a", 1_i32).unwrap();
    beans.insert("b", 2_i32).unwrap();
    match beans.create(|n: Single<i32>| Ok(n.0)) {
        Err(BeanError::Custom { error }) => assert_eq!(error, "more than one bean of type i32"),
        other => panic!("unexpected {:?}", other),
    }
}

#[test]
fn resolution_stops_at_the_first_failing_dependency() {
    let mut beans = Beans::new();
    beans.insert("flag", true).unwrap();
    let built = beans.create(|(_, _, _): (Single<bool>, Single<i32>, Single<char>)| Ok(0_u8 as u64));
    match built {
        Err(BeanError::NotFound { name }) => assert_eq!(name, "i32"),
        other => panic!("unexpected {:?}", other),
    }
}

#[test]
fn init_reports_the_constructors_error_and_stores_nothing() {
    let mut beans = Beans::new();
    let done = beans.init("x", |_: ()| -> BeanResult<i32> {
        Err(BeanError::Custom { error: "no".to_string() })
    });
    match done {
        Err(BeanError::Custom { error }) => assert_eq!(error, "no"),
        other => panic!("unexpected {:?}", other),
    }
    assert!(beans.get_ids().is_empty());
    beans.insert("x", 1_i32).unwrap();
    let again = beans.init("x", |_: ()| -> BeanResult<i32> { Ok(2) });
    assert!(matches!(again, Err(BeanError::AlreadyExists { .. })));
    assert_eq!(*beans.get::<i32>("x").unwrap(), 1);
}

#[test]
fn multi_get_by_id_and_snapshot() {
    let mut beans = Beans::new();
    beans.insert("a", 1_i32).unwrap();
    beans.insert("s", "x").unwrap();
    beans.insert("b", 2_i32).unwrap();
    let mut state = Multi::<i32>::init_state(&beans);
    let query = Multi::<i32>::get_param(&mut state, &beans).unwrap();
    beans.insert("c", 3_i32).unwrap();
    assert_eq!(query.len(), 2);
    assert_eq!(*query.get("b").unwrap(), 2);
    assert!(matches!(query.get("c"), Err(BeanError::NotFound { .. })));
    assert!(matches!(query.get("s"), Err(BeanError::NotFound { .. })));
    let mut iter = query.iter();
    assert_eq!(iter.next(), Some(&1));
    assert_eq!(iter.next(), Some(&2));
    assert_eq!(iter.next(), None);
    assert_eq!(iter.next(), None);
}

#[test]
fn values_keep_their_tag() {
    assert_eq!(7_i32.into_value().tag(), TypeTag::I32);
    assert_eq!(<String as Typed>::tag(), TypeTag::Text);
    assert_eq!(TypeTag::Str.name(), "&str");
    let stored = "text".to_string().into_value();
    assert!(i64::peek(&stored).is_none());
    assert_eq!(String::peek(&stored).unwrap(), "text");
    assert_eq!(stored.kind_name(), "alloc::string::String");
    assert!(matches!(stored.clone(), Value::Text(_)));
    assert_eq!(bool::take(true.into_value()), Some(true));
    assert_eq!(<() as Typed>::take(1_u64.into_value()), None);
}

#[test]
fn get_all_mut_hands_out_each_bean_of_the_type() {
    let mut beans = Beans::new();
    beans.insert("a", 1_i32).unwrap();
    beans.insert("s", "text").unwrap();
    beans.insert("b", 2_i32).unwrap();
    let mut all = beans.get_all_mut::<i32>();
    let mut seen = 0;
    while let Some(bean) = all.next() {
        *bean *= 10;
        seen += 1;
    }
    assert!(all.next().is_none());
    assert_eq!(seen, 2);
    assert_eq!(*beans.get::<i32>("a").unwrap(), 10);
    assert_eq!(*beans.get::<i32>("b").unwrap(), 20);
    assert_eq!(*beans.get::<&str>("s").unwrap(), "text");
    assert_eq!(beans.get_ids(), vec!["a", "s", "b"]);
    assert!(beans.get_all_mut::<char>().next().is_none());
}
