use kv_editor::state::App;
use kv_editor::state::AppEvent;

#[test]
fn json_output_of_empty_collection() {
    let a = App::new();
    assert_eq!(a.json_output().unwrap(), "{}");
}

#[test]
fn json_output_holds_key_and_value() {
    let mut a = App::new();
    a.handle_event(AppEvent::QuitKey);
    a.handle_event(AppEvent::NewPairKey);
    a.handle_event(AppEvent::TextChar('x'));
    a.handle_event(AppEvent::SwitchField);
    a.handle_event(AppEvent::TextChar('y'));
    a.handle_event(AppEvent::Confirm);
    let out = a.json_output().unwrap();
    assert_eq!(out, "{\"x\":\"y\"}");
    assert!(out.contains('x'));
    assert!(out.contains('y'));
    assert!(!out.contains('\n'));
}

#[test]
fn json_output_is_sorted_by_key_and_escapes() {
    let mut a = App::new();
    a.pairs.insert(String::from("b"), String::from("2"));
    a.pairs.insert(String::from("a"), String::from("say \"hi\""));
    assert_eq!(a.json_output().unwrap(), "{\"a\":\"say \\\"hi\\\"\",\"b\":\"2\"}");
}
