use tui_apps::pairs::Pairs;

fn text(s: &str) -> String {
    s.to_string()
}

#[test]
fn new_pairs_are_empty() {
    let pairs = Pairs::new();
    assert_eq!(pairs.len(), 0);
    assert!(pairs.is_empty());
    assert_eq!(pairs.key_at(0), None);
    assert_eq!(pairs.value_at(0), None);
    assert_eq!(pairs.get(&text("name")), None);
    assert!(!pairs.contains_key(&text("name")));
}

#[test]
fn insert_appends_new_keys_in_order() {
    let mut pairs = Pairs::new();
    pairs.insert(text("zeta"), text("1"));
    pairs.insert(text("alpha"), text("2"));
    pairs.insert(text("mid"), text("3"));
    assert_eq!(pairs.len(), 3);
    assert!(!pairs.is_empty());
    assert_eq!(pairs.key_at(0), Some(&text("zeta")));
    assert_eq!(pairs.key_at(1), Some(&text("alpha")));
    assert_eq!(pairs.key_at(2), Some(&text("mid")));
    assert_eq!(pairs.value_at(0), Some(&text("1")));
    assert_eq!(pairs.value_at(1), Some(&text("2")));
    assert_eq!(pairs.value_at(2), Some(&text("3")));
    assert_eq!(pairs.key_at(3), None);
    assert_eq!(pairs.value_at(3), None);
}

#[test]
fn insert_overwrites_in_place() {
    let mut pairs = Pairs::new();
    pairs.insert(text("a"), text("1"));
    pairs.insert(text("b"), text("2"));
    pairs.insert(text("c"), text("3"));
    pairs.insert(text("b"), text("two"));
    assert_eq!(pairs.len(), 3);
    assert_eq!(pairs.key_at(0), Some(&text("a")));
    assert_eq!(pairs.key_at(1), Some(&text("b")));
    assert_eq!(pairs.key_at(2), Some(&text("c")));
    assert_eq!(pairs.value_at(0), Some(&text("1")));
    assert_eq!(pairs.value_at(1), Some(&text("two")));
    assert_eq!(pairs.value_at(2), Some(&text("3")));
    assert_eq!(pairs.get(&text("b")), Some(&text("two")));
}

#[test]
fn get_finds_the_value_of_a_key() {
    let mut pairs = Pairs::new();
    pairs.insert(text("name"), text("alice"));
    pairs.insert(text(""), text("empty key"));
    pairs.insert(text("Name"), text("bob"));
    assert_eq!(pairs.get(&text("name")), Some(&text("alice")));
    assert_eq!(pairs.get(&text("Name")), Some(&text("bob")));
    assert_eq!(pairs.get(&text("")), Some(&text("empty key")));
    assert_eq!(pairs.get(&text("nam")), None);
    assert_eq!(pairs.get(&text("alice")), None);
    assert!(pairs.contains_key(&text("name")));
    assert!(pairs.contains_key(&text("")));
    assert!(!pairs.contains_key(&text("names")));
}

#[test]
fn same_pair_twice_changes_nothing() {
    let mut pairs = Pairs::new();
    pairs.insert(text("k"), text("v"));
    pairs.insert(text("k"), text("v"));
    assert_eq!(pairs.len(), 1);
    assert_eq!(pairs.key_at(0), Some(&text("k")));
    assert_eq!(pairs.value_at(0), Some(&text("v")));
}
