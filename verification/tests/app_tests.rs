use lucid_optimizer::app::{Action, AddFocus, App, Mode};
use lucid_optimizer::item::{Item, ItemOption, OptionKind};

fn make_app() -> App {
    let items = vec![
        Item {
            options: [
                ItemOption { kind: OptionKind::Magic, value: 10 },
                ItemOption { kind: OptionKind::CritRate, value: 7 },
            ],
        },
        Item {
            options: [
                ItemOption { kind: OptionKind::CritDamage, value: 8 },
                ItemOption { kind: OptionKind::CritRate, value: 13 },
            ],
        },
    ];
    let mut app = App::new(items, "test.json".to_string(), Default::default(), "stats.json".to_string());
    app.mode = Mode::List;
    app
}

#[test]
fn list_enter_goes_to_edit() {
    let mut app = make_app();
    app.apply(Action::Enter);
    assert!(matches!(app.mode, Mode::Edit { item_idx: 0, option_idx: 0 }));
}

#[test]
fn edit_escape_returns_to_list() {
    let mut app = make_app();
    app.apply(Action::Enter);
    app.apply(Action::Escape);
    assert!(matches!(app.mode, Mode::List));
}

#[test]
fn edit_value_enter_applies_change() {
    let mut app = make_app();
    app.apply(Action::Enter); // List → Edit
    app.apply(Action::EditValue); // Edit → EditValue, buffer="10"
    // buffer is pre-filled with "10", cursor=2; clear it first
    app.apply(Action::Backspace);
    app.apply(Action::Backspace);
    app.apply(Action::InputChar('9'));
    app.apply(Action::InputChar('9'));
    app.apply(Action::Enter);
    assert_eq!(app.items[0].options[0].value, 99);
    assert!(app.dirty);
}

#[test]
fn edit_value_escape_discards_change() {
    let mut app = make_app();
    let original = app.items[0].options[0].value;
    let original_dirty = app.dirty;
    app.apply(Action::Enter); // List → Edit
    app.apply(Action::EditValue); // → EditValue
    app.apply(Action::InputChar('9'));
    app.apply(Action::Escape);
    assert_eq!(app.items[0].options[0].value, original);
    assert_eq!(app.dirty, original_dirty);
}

#[test]
fn edit_value_cursor_movement() {
    let mut app = make_app();
    app.apply(Action::Enter); // List → Edit
    app.apply(Action::EditValue); // → EditValue, buffer="10", cursor=2
    app.apply(Action::Left); // cursor=1
    app.apply(Action::InputChar('5')); // buffer="150", cursor=2
    app.apply(Action::Enter);
    assert_eq!(app.items[0].options[0].value, 150);
}

#[test]
fn confirm_delete_d_removes_item() {
    let mut app = make_app();
    app.apply(Action::Delete);
    app.apply(Action::Delete);
    assert_eq!(app.items.len(), 1);
    assert!(app.dirty);
    assert!(matches!(app.mode, Mode::List));
}

#[test]
fn confirm_delete_escape_cancels() {
    let mut app = make_app();
    app.apply(Action::Delete);
    app.apply(Action::Escape);
    assert_eq!(app.items.len(), 2);
    assert!(matches!(app.mode, Mode::List));
}

#[test]
fn adding_full_flow_appends_item() {
    let mut app = make_app();
    let before = app.items.len();
    // AddItem → SelectKind(0): the kind list opens at once
    app.apply(Action::AddItem);
    assert!(matches!(app.mode, Mode::Adding(ref s) if matches!(s.focus, AddFocus::SelectKind(0))));
    // SelectKind(0): cursor=0 (Magic) → Enter → InputValue(0)
    app.apply(Action::Enter);
    // InputValue(0): type "5" → Enter → other(1) has no kind → SelectKind(1)
    app.apply(Action::InputChar('5'));
    app.apply(Action::Enter);
    assert!(matches!(app.mode, Mode::Adding(ref s) if matches!(s.focus, AddFocus::SelectKind(1))));
    // SelectKind(1): Down → cursor=1 (MagicPercent) → Enter → InputValue(1)
    app.apply(Action::Down);
    app.apply(Action::Enter);
    // InputValue(1): type "3" → Enter → both_complete → SelectRow
    app.apply(Action::InputChar('3'));
    app.apply(Action::Enter);
    assert!(matches!(app.mode, Mode::Adding(ref s) if matches!(s.focus, AddFocus::SelectRow)));
    // SelectRow: confirm the item → List
    app.apply(Action::Confirm);
    assert_eq!(app.items.len(), before + 1);
    assert!(app.dirty);
    assert!(matches!(app.mode, Mode::List));
    let new_item = &app.items[app.items.len() - 1];
    assert_eq!(new_item.options[0].kind, OptionKind::Magic);
    assert_eq!(new_item.options[0].value, 5);
    assert_eq!(new_item.options[1].kind, OptionKind::MagicPercent);
    assert_eq!(new_item.options[1].value, 3);
}

#[test]
fn adding_escape_cancels_without_change() {
    let mut app = make_app();
    let before = app.items.clone();
    app.apply(Action::AddItem); // SelectKind(0)
    app.apply(Action::Escape); // → SelectRow
    app.apply(Action::Escape); // → List
    assert_eq!(app.items, before);
    assert!(matches!(app.mode, Mode::List));
}

#[test]
fn adding_esc_navigates_back() {
    let mut app = make_app();
    app.apply(Action::AddItem); // SelectKind(0): the kind list opens at once
    assert!(matches!(app.mode, Mode::Adding(ref s) if matches!(s.focus, AddFocus::SelectKind(0))));
    app.apply(Action::Enter); // InputValue(0)
    assert!(matches!(app.mode, Mode::Adding(ref s) if matches!(s.focus, AddFocus::InputValue(0))));
    app.apply(Action::Escape); // back to SelectRow
    assert!(matches!(app.mode, Mode::Adding(ref s) if matches!(s.focus, AddFocus::SelectRow)));
    app.apply(Action::Escape); // back to List
    assert!(matches!(app.mode, Mode::List));
}

#[test]
fn undo_reverts_last_change() {
    let mut app = make_app();
    app.apply(Action::Delete);
    app.apply(Action::Delete);
    assert_eq!(app.items.len(), 1);
    app.apply(Action::Undo);
    assert_eq!(app.items.len(), 2);
}

#[test]
fn quit_always_goes_to_confirm() {
    let mut app = make_app();
    app.apply(Action::Quit);
    assert!(matches!(app.mode, Mode::QuitConfirm));
}
