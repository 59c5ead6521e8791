use aid_distributor::string_map::StringMap;

fn s(text: &str) -> String {
    text.to_string()
}

#[test]
fn empty_map_holds_nothing() {
    let map: StringMap<u64> = StringMap::new();
    assert_eq!(map.len(), 0);
    assert!(!map.contains_key(&s("a")));
    assert_eq!(map.get(&s("a")), None);
    assert_eq!(map.position(&s("a")), None);
}

#[test]
fn inserted_values_are_found_under_their_keys() {
    let mut map: StringMap<u64> = StringMap::new();
    map.insert(s("a"), 1);
    map.insert(s("b"), 2);
    map.insert(s(""), 3);
    assert_eq!(map.len(), 3);
    assert_eq!(map.get(&s("a")), Some(&1));
    assert_eq!(map.get(&s("b")), Some(&2));
    assert_eq!(map.get(&s("")), Some(&3));
    assert_eq!(map.get(&s("c")), None);
    assert!(map.contains_key(&s("b")));
    assert!(!map.contains_key(&s("B")));
}

#[test]
fn inserting_under_a_taken_key_replaces_in_place() {
    let mut map: StringMap<u64> = StringMap::new();
    map.insert(s("a"), 1);
    map.insert(s("b"), 2);
    map.insert(s("a"), 10);
    assert_eq!(map.len(), 2);
    assert_eq!(map.get(&s("a")), Some(&10));
    assert_eq!(map.get(&s("b")), Some(&2));
    assert_eq!(map.position(&s("a")), Some(0));
    assert_eq!(map.position(&s("b")), Some(1));
}

#[test]
fn entries_keep_the_order_of_first_insertion() {
    let mut map: StringMap<u64> = StringMap::new();
    map.insert(s("x"), 1);
    map.insert(s("y"), 2);
    map.insert(s("z"), 3);
    map.insert(s("y"), 20);
    assert_eq!(map.key_at(0), "x");
    assert_eq!(map.key_at(1), "y");
    assert_eq!(map.key_at(2), "z");
    assert_eq!(*map.value_at(0), 1);
    assert_eq!(*map.value_at(1), 20);
    assert_eq!(*map.value_at(2), 3);
}
