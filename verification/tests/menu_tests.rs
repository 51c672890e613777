use kv_editor::menu::decorate_label;
use kv_editor::menu::strip_label;
use kv_editor::menu::MainMenu;
use kv_editor::menu::MainMenuItem;
use kv_editor::menu::MainMenuItemCode;
use kv_editor::menu::MainMenuItemStatus;
use kv_editor::AppError;

#[test]
fn item_new_keeps_fields() {
    let it = MainMenuItem::new("Exit", MainMenuItemCode::Exit, MainMenuItemStatus::Unselected);
    assert_eq!(it.text, "Exit");
    assert!(matches!(it.code, MainMenuItemCode::Exit));
    assert!(matches!(it.status, MainMenuItemStatus::Unselected));
}

#[test]
fn item_clone_copies() {
    let it = MainMenuItem::new("Credentials", MainMenuItemCode::Credentials, MainMenuItemStatus::Selected);
    let c = it.clone();
    assert_eq!(c.text, "Credentials");
    assert!(matches!(c.code, MainMenuItemCode::Credentials));
    assert!(matches!(c.status, MainMenuItemStatus::Selected));
    let code = MainMenuItemCode::SyncDB.clone();
    assert!(matches!(code, MainMenuItemCode::SyncDB));
    let status = MainMenuItemStatus::Unselected.clone();
    assert!(matches!(status, MainMenuItemStatus::Unselected));
}

#[test]
fn decoration_adds_marker_once() {
    assert_eq!(decorate_label("Exit"), "✨ Exit");
    assert_eq!(decorate_label("✨ Exit"), "✨ Exit");
    assert_eq!(decorate_label(""), "✨ ");
}

#[test]
fn decoration_twice_then_strip_equals_strip_of_once() {
    let once = decorate_label("Credentials");
    let twice = decorate_label(&decorate_label("Credentials"));
    assert_eq!(strip_label(&twice), strip_label(&once));
    assert_eq!(strip_label(&once), "Credentials");
}

#[test]
fn strip_is_exact_prefix_match() {
    assert_eq!(strip_label("a ✨ b"), "a ✨ b");
    assert_eq!(strip_label("✨ ✨ x"), "✨ x");
    assert_eq!(strip_label("✨x"), "✨x");
    assert_eq!(strip_label(""), "");
}

#[test]
fn full_cycle_restores_menu() {
    let mut m = MainMenu::new();
    assert_eq!(m.selected_index, 0);
    let n = m.items.len();
    for _ in 0..n {
        m.next();
    }
    assert_eq!(m.selected_index, 0);
    assert!(matches!(m.items[0].status, MainMenuItemStatus::Selected));
    assert!(matches!(m.items[1].status, MainMenuItemStatus::Unselected));
    assert!(matches!(m.items[2].status, MainMenuItemStatus::Unselected));
}

#[test]
fn previous_wraps_to_last() {
    let mut m = MainMenu::new();
    m.previous();
    assert_eq!(m.selected_index, 2);
    assert!(matches!(m.items[2].status, MainMenuItemStatus::Selected));
    assert!(matches!(m.items[0].status, MainMenuItemStatus::Unselected));
    m.next();
    assert_eq!(m.selected_index, 0);
}

#[test]
fn single_item_navigation_is_noop() {
    let mut m = MainMenu {
        items: vec![MainMenuItem::new("Exit", MainMenuItemCode::Exit, MainMenuItemStatus::Selected)],
        selected_index: 0,
    };
    m.next();
    assert_eq!(m.selected_index, 0);
    assert!(matches!(m.items[0].status, MainMenuItemStatus::Selected));
    m.previous();
    assert_eq!(m.selected_index, 0);
    assert!(matches!(m.items[0].status, MainMenuItemStatus::Selected));
}

#[test]
fn selected_on_empty_menu_is_invariant_violation() {
    let m = MainMenu { items: Vec::new(), selected_index: 0 };
    match m.selected() {
        Err(e) => assert_eq!(e, AppError::InvariantViolation),
        Ok(_) => panic!("an empty menu has no selected item"),
    }
}

#[test]
fn selected_returns_highlighted_item() {
    let mut m = MainMenu::new();
    m.next();
    let it = m.selected().unwrap();
    assert_eq!(it.text, "Credentials");
    assert!(matches!(it.code, MainMenuItemCode::Credentials));
}

#[test]
fn display_label_derived_from_flag() {
    let m = MainMenu::new();
    assert_eq!(m.items[0].display_label(), "✨ Synchronise Databases");
    assert_eq!(m.items[1].display_label(), "Credentials");
    assert_eq!(m.items[2].display_label(), "Exit");
}
