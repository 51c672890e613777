use kv_editor::state::App;
use kv_editor::state::AppEvent;
use kv_editor::state::AppOutcome;
use kv_editor::state::CurrentScreen;
use kv_editor::state::CurrentlyEditing;
use kv_editor::AppError;

fn app_in_editing() -> App {
    let mut a = App::new();
    assert_eq!(a.handle_event(AppEvent::QuitKey), AppOutcome::Continue);
    assert_eq!(a.handle_event(AppEvent::NewPairKey), AppOutcome::Continue);
    assert_eq!(a.current_screen, CurrentScreen::Editing);
    a
}

#[test]
fn initial_state() {
    let a = App::new();
    assert_eq!(a.current_screen, CurrentScreen::Main);
    assert_eq!(a.currently_editing, None);
    assert_eq!(a.key_input, "");
    assert_eq!(a.value_input, "");
    assert_eq!(a.pairs.len(), 0);
    assert_eq!(a.main_screen.menu.selected_index, 0);
}

#[test]
fn navigate_down_twice_then_wrap() {
    let mut a = App::new();
    a.handle_event(AppEvent::NavigateDown);
    a.handle_event(AppEvent::NavigateDown);
    assert_eq!(a.main_screen.menu.selected_index, 2);
    assert_eq!(a.main_screen.menu.items[2].display_label(), "✨ Exit");
    assert_eq!(a.main_screen.menu.items[0].display_label(), "Synchronise Databases");
    assert_eq!(a.main_screen.menu.items[1].display_label(), "Credentials");
    a.handle_event(AppEvent::NavigateDown);
    assert_eq!(a.main_screen.menu.selected_index, 0);
}

#[test]
fn navigate_up_wraps_backward() {
    let mut a = App::new();
    a.handle_event(AppEvent::NavigateUp);
    assert_eq!(a.main_screen.menu.selected_index, 2);
}

#[test]
fn confirm_on_exit_item_opens_confirm_screen() {
    let mut a = App::new();
    a.handle_event(AppEvent::NavigateDown);
    a.handle_event(AppEvent::NavigateDown);
    assert_eq!(a.handle_event(AppEvent::Confirm), AppOutcome::Continue);
    assert_eq!(a.current_screen, CurrentScreen::Exiting);
}

#[test]
fn confirm_on_placeholder_item_is_noop() {
    let mut a = App::new();
    assert_eq!(a.handle_event(AppEvent::Confirm), AppOutcome::Continue);
    assert_eq!(a.current_screen, CurrentScreen::Main);
    a.handle_event(AppEvent::NavigateDown);
    a.handle_event(AppEvent::Confirm);
    assert_eq!(a.current_screen, CurrentScreen::Main);
}

#[test]
fn quit_key_opens_confirm_screen() {
    let mut a = App::new();
    a.handle_event(AppEvent::QuitKey);
    assert_eq!(a.current_screen, CurrentScreen::Exiting);
}

#[test]
fn entering_editing_resets_buffer_and_focus() {
    let mut a = app_in_editing();
    a.handle_event(AppEvent::TextChar('x'));
    a.handle_event(AppEvent::SwitchField);
    a.handle_event(AppEvent::TextChar('y'));
    a.handle_event(AppEvent::Cancel);
    a.handle_event(AppEvent::QuitKey);
    a.handle_event(AppEvent::NewPairKey);
    assert_eq!(a.current_screen, CurrentScreen::Editing);
    assert_eq!(a.currently_editing, Some(CurrentlyEditing::Key));
    assert_eq!(a.key_input, "");
    assert_eq!(a.value_input, "");
}

#[test]
fn editing_from_main_resets_buffer_too() {
    let mut a = App::new();
    a.handle_event(AppEvent::NewPairKey);
    assert_eq!(a.current_screen, CurrentScreen::Editing);
    assert_eq!(a.currently_editing, Some(CurrentlyEditing::Key));
    assert_eq!(a.key_input, "");
    assert_eq!(a.value_input, "");
}

#[test]
fn compose_and_commit_pair() {
    let mut a = App::new();
    a.handle_event(AppEvent::QuitKey);
    a.handle_event(AppEvent::NewPairKey);
    a.handle_event(AppEvent::TextChar('a'));
    a.handle_event(AppEvent::TextChar('b'));
    a.handle_event(AppEvent::SwitchField);
    a.handle_event(AppEvent::TextChar('1'));
    assert_eq!(a.handle_event(AppEvent::Confirm), AppOutcome::Continue);
    assert_eq!(a.current_screen, CurrentScreen::Main);
    assert_eq!(a.currently_editing, None);
    assert_eq!(a.pairs.len(), 1);
    assert_eq!(a.pairs.get(&String::from("ab")), Some(&String::from("1")));
}

#[test]
fn commit_overwrites_existing_key() {
    let mut a = App::new();
    for (k, v) in [('k', '1'), ('k', '2')] {
        a.handle_event(AppEvent::QuitKey);
        a.handle_event(AppEvent::NewPairKey);
        a.handle_event(AppEvent::TextChar(k));
        a.handle_event(AppEvent::SwitchField);
        a.handle_event(AppEvent::TextChar(v));
        a.handle_event(AppEvent::Confirm);
    }
    assert_eq!(a.pairs.len(), 1);
    assert_eq!(a.pairs.get(&String::from("k")), Some(&String::from("2")));
}

#[test]
fn backspace_removes_last_char_and_is_noop_when_empty() {
    let mut a = app_in_editing();
    a.handle_event(AppEvent::Backspace);
    assert_eq!(a.key_input, "");
    a.handle_event(AppEvent::TextChar('a'));
    a.handle_event(AppEvent::TextChar('b'));
    a.handle_event(AppEvent::Backspace);
    assert_eq!(a.key_input, "a");
}

#[test]
fn switch_field_toggles_focus_both_ways() {
    let mut a = app_in_editing();
    a.handle_event(AppEvent::SwitchField);
    assert_eq!(a.currently_editing, Some(CurrentlyEditing::Value));
    a.handle_event(AppEvent::SwitchField);
    assert_eq!(a.currently_editing, Some(CurrentlyEditing::Key));
}

#[test]
fn cancel_discards_the_buffer() {
    let mut a = app_in_editing();
    a.handle_event(AppEvent::TextChar('z'));
    a.handle_event(AppEvent::Cancel);
    assert_eq!(a.current_screen, CurrentScreen::Main);
    assert_eq!(a.currently_editing, None);
    assert_eq!(a.key_input, "");
    assert_eq!(a.pairs.len(), 0);
}

#[test]
fn take_pair_drains_the_buffer() {
    let mut a = app_in_editing();
    a.handle_event(AppEvent::TextChar('k'));
    a.handle_event(AppEvent::SwitchField);
    a.handle_event(AppEvent::TextChar('v'));
    let first = a.take_pair();
    assert_eq!(first, (String::from("k"), String::from("v")));
    let second = a.take_pair();
    assert_eq!(second, (String::new(), String::new()));
}

#[test]
fn toggle_editing_without_focus_is_invariant_violation() {
    let mut a = App::new();
    assert_eq!(a.toggle_editing(), Err(AppError::InvariantViolation));
    assert_eq!(a.currently_editing, None);
}

#[test]
fn accept_events_report_the_exit_kind() {
    let mut a = App::new();
    a.handle_event(AppEvent::QuitKey);
    assert_eq!(a.handle_event(AppEvent::AcceptWithOutput), AppOutcome::ExitWithOutput);
    let mut b = App::new();
    b.handle_event(AppEvent::QuitKey);
    assert_eq!(b.handle_event(AppEvent::AcceptWithoutOutput), AppOutcome::ExitSilent);
}

#[test]
fn unmapped_events_are_ignored() {
    let mut a = App::new();
    assert_eq!(a.handle_event(AppEvent::Backspace), AppOutcome::Continue);
    assert_eq!(a.handle_event(AppEvent::SwitchField), AppOutcome::Continue);
    assert_eq!(a.handle_event(AppEvent::AcceptWithOutput), AppOutcome::Continue);
    assert_eq!(a.current_screen, CurrentScreen::Main);
    let mut e = app_in_editing();
    assert_eq!(e.handle_event(AppEvent::QuitKey), AppOutcome::Continue);
    assert_eq!(e.current_screen, CurrentScreen::Editing);
}
