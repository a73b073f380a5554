use spider_core::table::{Table, TableError};

#[test]
fn test_table() {
    let mut table = Table::new();
    table.set::<&'static str>("new", "table");
    let stored = *table.get::<&'static str>("new").unwrap();
    assert_eq!(stored, "table");
}

#[test]
fn test_table_with_metadata() {
    let mut metatable = Table::new();
    metatable.set::<&'static str>("v", "hello, world!");
    let mut table = Table::new();
    assert!(!table.contains_key("v"));
    table.set_metatable(metatable);
    assert_eq!(*table.get::<&str>("v").unwrap(), "hello, world!");
}

#[test]
fn table_starts_empty() {
    let table = Table::new();
    assert_eq!(table.len(), 0);
    assert!(table.metatable().is_none());
    assert!(!table.contains_key(""));
}

#[test]
fn table_key_not_found() {
    let table = Table::new();
    match table.get::<i32>("missing") {
        Err(TableError::KeyNotFound { key }) => assert_eq!(key, "missing"),
        other => panic!("unexpected {:?}", other),
    }
}

#[test]
fn table_type_mismatch_names_both_types() {
    let mut table = Table::new();
    table.set::<i32>("v", 3);
    match table.get::<String>("v") {
        Err(TableError::TypeMismatch { key, expected_type_name, actual_type_name }) => {
            assert_eq!(key, "v");
            assert_eq!(expected_type_name, "alloc::string::String");
            assert_eq!(actual_type_name, "i32");
        }
        other => panic!("unexpected {:?}", other),
    }
    assert_eq!(*table.get::<i32>("v").unwrap(), 3);
}

#[test]
fn table_mismatch_does_not_fall_back_to_metatable() {
    let mut metatable = Table::new();
    metatable.set::<String>("v", "below".to_string());
    let mut table = Table::new();
    table.set_metatable(metatable);
    table.set::<i32>("v", 1);
    assert!(matches!(table.get::<String>("v"), Err(TableError::TypeMismatch { .. })));
}

#[test]
fn table_set_replaces_and_keeps_other_keys() {
    let mut table = Table::new();
    table.set::<i32>("a", 1);
    table.set::<i32>("b", 2);
    table.set::<i32>("a", 10);
    assert_eq!(*table.get::<i32>("a").unwrap(), 10);
    assert_eq!(*table.get::<i32>("b").unwrap(), 2);
    assert_eq!(table.len(), 2);
    table.set::<bool>("a", true);
    assert_eq!(*table.get::<bool>("a").unwrap(), true);
    assert_eq!(table.len(), 2);
}

#[test]
fn table_shadowing_keeps_the_inherited_value() {
    let mut metatable = Table::new();
    metatable.set::<i32>("v", 3);
    let mut table = Table::new();
    table.set_metatable(metatable);
    table.set::<i32>("v", 9);
    assert_eq!(*table.get::<i32>("v").unwrap(), 9);
    assert_eq!(*table.metatable().unwrap().get::<i32>("v").unwrap(), 3);
}

#[test]
fn table_len_counts_shadowed_keys_twice() {
    let mut metatable = Table::new();
    metatable.set::<i32>("v", 3);
    metatable.set::<i32>("w", 4);
    let mut table = Table::new();
    table.set::<i32>("v", 9);
    table.set_metatable(metatable);
    assert_eq!(table.len(), 3);
    assert!(table.contains_key("v"));
    assert!(!table.contains_key("w"));
}

#[test]
fn table_lookup_walks_the_whole_chain() {
    let mut oldest = Table::new();
    oldest.set::<u64>("deep", 7);
    let mut middle = Table::new();
    middle.set_metatable(oldest);
    let mut table = Table::new();
    table.set_metatable(middle);
    assert_eq!(*table.get::<u64>("deep").unwrap(), 7);
    assert_eq!(table.len(), 1);
}

#[test]
fn table_clone_is_independent() {
    let mut table = Table::new();
    table.set::<char>("c", 'x');
    let copy = table.clone();
    table.set::<char>("c", 'y');
    assert_eq!(*copy.get::<char>("c").unwrap(), 'x');
    assert_eq!(*table.get::<char>("c").unwrap(), 'y');
}

#[test]
fn table_set_metatable_replaces_the_old_one() {
    let mut first = Table::new();
    first.set::<i32>("a", 1);
    let mut second = Table::new();
    second.set::<i32>("b", 2);
    let mut table = Table::new();
    table.set_metatable(first);
    table.set_metatable(second);
    assert!(table.get::<i32>("a").is_err());
    assert_eq!(*table.get::<i32>("b").unwrap(), 2);
}
