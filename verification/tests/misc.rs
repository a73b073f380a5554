use spider_core::beans::{BeanError, NamedFromBeanProvider, NoBeans};
use spider_core::err::BuildErr;
use spider_core::error::{Error, ErrorKind};
use spider_core::from_state::{Create, FromState};
use spider_core::invocation::compiler::{ReadToEnd, Reader, VecReader};
use spider_core::named::{CreateNamed, Named};
use spider_core::table::{Table, TableError};

struct World(u32);

struct Value(u32);

impl FromState<World> for Value {
    fn from_state(state: &World) -> Self {
        Self(state.0)
    }
}

#[test]
fn test_from_state() {
    let world = World(13);
    let s: Value = world.create();
    assert_eq!(s.0, world.0)
}

#[test]
fn default_from_unit_state() {
    let made: u32 = ().create();
    assert_eq!(made, 0);
    let text: String = FromState::from_state(&());
    assert_eq!(text, "");
}

#[test]
fn test_read_to_end() {
    let mut vec_reader = VecReader::new(Vec::from(b"Hello World!"));
    let mut buffer = vec![];
    vec_reader.read_to_end(&mut buffer);
    assert_eq!(buffer, b"Hello World!");
}

#[test]
fn read_to_end_appends_across_chunks() {
    let bytes: Vec<u8> = (0..3000).map(|i| (i % 251) as u8).collect();
    let mut reader = VecReader::new(bytes.clone());
    assert_eq!(reader.read(10), &bytes[..10]);
    assert_eq!(reader.read(0), Vec::<u8>::new());
    let mut buffer = vec![7, 7];
    assert_eq!(reader.read_to_end(&mut buffer), ReadToEnd { bytes_read: 2990 });
    assert_eq!(&buffer[..2], &[7, 7]);
    assert_eq!(&buffer[2..], &bytes[10..]);
    assert_eq!(reader.read(5), Vec::<u8>::new());
    assert_eq!(reader.read_to_end(&mut buffer).bytes_read, 0);
    assert_eq!(buffer.len(), 2992);
}

#[derive(Debug, PartialEq)]
struct Tagged {
    name: String,
}

impl Named for Tagged {
    fn name(&self) -> &str {
        &self.name
    }
}

impl CreateNamed for Tagged {
    fn with_name(name: &str) -> Self {
        Tagged { name: name.to_string() }
    }
}

impl NoBeans for Tagged {}

#[test]
fn named_from_bean_provider() {
    let made = Tagged::named_from_bean_provider("compile", &());
    assert_eq!(made.name(), "compile");
}

#[test]
fn build_err_map() {
    let double = |e: i32| e * 2;
    assert!(matches!(BuildErr::Fail(2).map(double), BuildErr::Fail(4)));
    assert!(matches!(BuildErr::StopAction(Some(3)).map(double), BuildErr::StopAction(Some(6))));
    assert!(matches!(BuildErr::StopTask(Some(4)).map(double), BuildErr::StopTask(Some(8))));
    assert!(matches!(BuildErr::StopAction(None).map(double), BuildErr::<i32>::StopAction(None)));
    assert!(matches!(BuildErr::StopTask(None).map(double), BuildErr::<i32>::StopTask(None)));
    assert!(matches!(BuildErr::<u8>::Fail(7).into::<u64>(), BuildErr::Fail(7_u64)));
    assert!(matches!(BuildErr::<u64>::from(BuildErr::StopTask(Some(1_u8))), BuildErr::StopTask(Some(1))));
    assert!(matches!(BuildErr::fail("x"), BuildErr::Fail("x")));
}

#[test]
fn messages() {
    let table = Table::new();
    let missing = table.get::<i32>("v").unwrap_err();
    assert_eq!(missing.message(), "\"v\" not found in table");
    let odd = TableError::KeyNotFound { key: "a\"b\n".to_string() };
    assert_eq!(odd.message(), "\"a\\\"b\\n\" not found in table");
    let mismatch = TableError::TypeMismatch {
        key: "k".to_string(),
        expected_type_name: "i32",
        actual_type_name: "bool",
    };
    assert_eq!(mismatch.message(), "\"k\" is not of type i32");
    assert_eq!(Error::from_table(mismatch).message(), "\"k\" is not of type i32");
    assert_eq!(Error::new(ErrorKind::custom(12)).message(), "12");
    assert_eq!(
        BeanError::AlreadyExists { name: "a".to_string() }.message(),
        "bean with id a already exists"
    );
    assert_eq!(BeanError::NotFound { name: "a".to_string() }.message(), "bean with id a not found");
    assert_eq!(
        BeanError::WrongType { name: "a".to_string(), expected: "u32", actual: "i32" }.message(),
        "bean with id a has type i32, but u32 was requested"
    );
    assert_eq!(BeanError::Custom { error: "why".to_string() }.message(), "why");
}
