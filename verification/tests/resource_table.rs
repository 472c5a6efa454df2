use seurat::resource_table::ResourceTable;

#[test]
fn index_of_is_stable_across_later_insertions() {
    let mut table: ResourceTable<u32> = ResourceTable::new();
    table.insert(String::from("albedo"), 1);
    table.insert(String::from("arm"), 2);
    let albedo = table.index_of("albedo");
    let arm = table.index_of("arm");
    assert_eq!(albedo, Some(0));
    assert_eq!(arm, Some(1));
    table.insert(String::from("normal"), 3);
    table.insert(String::from("albedo"), 10);
    assert_eq!(table.index_of("albedo"), albedo);
    assert_eq!(table.index_of("arm"), arm);
    assert_eq!(table.index_of("normal"), Some(2));
    assert_eq!(table.get("albedo"), Some(&10));
    assert_eq!(table.len(), 3);
}

#[test]
fn new_table_is_empty() {
    let table: ResourceTable<u32> = ResourceTable::new();
    assert_eq!(table.len(), 0);
    assert_eq!(table.index_of("anything"), None);
    assert_eq!(table.get("anything"), None);
    assert!(table.get_index(0).is_none());
}

#[test]
fn insert_appends_in_order() {
    let mut table: ResourceTable<&'static str> = ResourceTable::new();
    table.insert(String::from("c"), "third letter");
    table.insert(String::from("a"), "first letter");
    table.insert(String::from("b"), "second letter");
    assert_eq!(table.len(), 3);
    assert_eq!(table.index_of("c"), Some(0));
    assert_eq!(table.index_of("a"), Some(1));
    assert_eq!(table.index_of("b"), Some(2));
    let (key, value) = table.get_index(1).unwrap();
    assert_eq!(key.as_str(), "a");
    assert_eq!(*value, "first letter");
    assert!(table.get_index(3).is_none());
}

#[test]
fn duplicate_key_overwrites_in_place() {
    let mut table: ResourceTable<u32> = ResourceTable::new();
    table.insert(String::from("x"), 1);
    table.insert(String::from("y"), 2);
    table.insert(String::from("x"), 3);
    assert_eq!(table.len(), 2);
    assert_eq!(table.index_of("x"), Some(0));
    assert_eq!(table.get("x"), Some(&3));
    assert_eq!(table.get("y"), Some(&2));
    let (key, value) = table.get_index(0).unwrap();
    assert_eq!(key.as_str(), "x");
    assert_eq!(*value, 3);
}

#[test]
fn insert_full_returns_the_handle() {
    let mut table: ResourceTable<u32> = ResourceTable::new();
    assert_eq!(table.insert_full(String::from("x"), 1), 0);
    assert_eq!(table.insert_full(String::from("y"), 2), 1);
    assert_eq!(table.insert_full(String::from("x"), 3), 0);
    assert_eq!(table.insert_full(String::from("z"), 4), 2);
}

#[test]
fn missing_key_is_reported_not_defaulted() {
    let mut table: ResourceTable<u32> = ResourceTable::new();
    table.insert(String::from("present"), 7);
    assert_eq!(table.get("absent"), None);
    assert_eq!(table.index_of("absent"), None);
    assert_eq!(table.index_of("presen"), None);
    assert_eq!(table.index_of("present "), None);
}

#[test]
fn get_index_mut_changes_one_value_only() {
    let mut table: ResourceTable<u32> = ResourceTable::new();
    table.insert(String::from("a"), 1);
    table.insert(String::from("b"), 2);
    *table.get_index_mut(1) = 20;
    assert_eq!(table.get("a"), Some(&1));
    assert_eq!(table.get("b"), Some(&20));
    assert_eq!(table.index_of("b"), Some(1));
}
