use kv_editor::pairs::Pairs;

#[test]
fn empty_collection() {
    let p = Pairs::new();
    assert_eq!(p.len(), 0);
    assert!(p.get(&String::from("x")).is_none());
}

#[test]
fn insert_then_get() {
    let mut p = Pairs::new();
    p.insert(String::from("x"), String::from("y"));
    assert_eq!(p.len(), 1);
    assert_eq!(p.get(&String::from("x")), Some(&String::from("y")));
    assert!(p.get(&String::from("y")).is_none());
}

#[test]
fn insert_existing_key_overwrites_without_growing() {
    let mut p = Pairs::new();
    p.insert(String::from("x"), String::from("y"));
    p.insert(String::from("other"), String::from("kept"));
    p.insert(String::from("x"), String::from("z"));
    assert_eq!(p.len(), 2);
    assert_eq!(p.get(&String::from("x")), Some(&String::from("z")));
    assert_eq!(p.get(&String::from("other")), Some(&String::from("kept")));
}

#[test]
fn insert_new_key_grows_by_one() {
    let mut p = Pairs::new();
    p.insert(String::from("a"), String::from("1"));
    p.insert(String::from("b"), String::from("2"));
    assert_eq!(p.len(), 2);
}

#[test]
fn empty_key_and_value_are_accepted() {
    let mut p = Pairs::new();
    p.insert(String::new(), String::new());
    assert_eq!(p.len(), 1);
    assert_eq!(p.get(&String::new()), Some(&String::new()));
}
