use lucid_optimizer::app::{Action, AddFocus, App, Mode, SaveRequest};
use lucid_optimizer::event::{key_to_action, Key, KeyCode};
use lucid_optimizer::item::{Item, ItemError, ItemOption, OptionKind};
use lucid_optimizer::layout::{compute_offset, cursor_parts, pad_kind, pad_to};
use lucid_optimizer::optimizer::{combinations, reaches_crit_cap, strength_totals, total_crit_rate, StrengthTotals};
use lucid_optimizer::stats::BaseStats;
use lucid_optimizer::text::{format_i32, parse_i32};

fn opt(kind: OptionKind, value: i32) -> ItemOption {
    ItemOption { kind, value }
}

fn two_items() -> Vec<Item> {
    vec![
        Item { options: [opt(OptionKind::Magic, 10), opt(OptionKind::CritRate, 7)] },
        Item { options: [opt(OptionKind::CritDamage, 8), opt(OptionKind::CritRate, 13)] },
    ]
}

fn list_app() -> App {
    let mut app = App::new(two_items(), "i.json".to_string(), BaseStats::default(), "s.json".to_string());
    app.mode = Mode::List;
    app
}

fn key(code: KeyCode) -> Key {
    Key { code, ctrl: false }
}

#[test]
fn parse_follows_std_rules() {
    assert_eq!(parse_i32(""), None);
    assert_eq!(parse_i32("-"), None);
    assert_eq!(parse_i32("+"), None);
    assert_eq!(parse_i32("+5"), Some(5));
    assert_eq!(parse_i32("-12"), Some(-12));
    assert_eq!(parse_i32("007"), Some(7));
    assert_eq!(parse_i32("12a"), None);
    assert_eq!(parse_i32("--1"), None);
    assert_eq!(parse_i32("2147483647"), Some(i32::MAX));
    assert_eq!(parse_i32("2147483648"), None);
    assert_eq!(parse_i32("-2147483648"), Some(i32::MIN));
    assert_eq!(parse_i32("-2147483649"), None);
    assert_eq!(parse_i32("99999999999999999999"), None);
    for s in ["", "-", "+7", "12", "x", "2147483648", "-0"] {
        assert_eq!(parse_i32(s), s.parse::<i32>().ok(), "parse of {s:?}");
    }
}

#[test]
fn format_matches_to_string_and_reads_back() {
    for v in [0, 7, -5, 10, 150, i32::MAX, i32::MIN, -1000] {
        let s = format_i32(v);
        assert_eq!(s, v.to_string());
        assert_eq!(parse_i32(&s), Some(v));
    }
}

#[test]
fn option_kind_positions_and_names() {
    assert_eq!(OptionKind::Magic.index_in_all(), 0);
    assert_eq!(OptionKind::Mastery.index_in_all(), 5);
    assert_eq!(OptionKind::CritRate.index_in_all(), 2);
    for (i, k) in OptionKind::ALL.iter().enumerate() {
        assert_eq!(k.index_in_all(), i);
    }
    assert_eq!(OptionKind::CooldownReduction.display_name(), "재사용 대기시간 감소");
    assert_eq!(OptionKind::from_korean("마력%"), Some(OptionKind::MagicPercent));
    assert_eq!(OptionKind::from_korean("마력 "), None);
}

#[test]
fn stored_entries_are_read_back() {
    assert_eq!(ItemOption::from_entry("숙련도", 12), Ok(opt(OptionKind::Mastery, 12)));
    assert_eq!(ItemOption::from_entry("힘", 1), Err(ItemError::UnknownKind));
    let a = opt(OptionKind::Magic, 1);
    let b = opt(OptionKind::CritRate, 2);
    assert_eq!(Item::from_options(vec![a, b]), Ok(Item { options: [a, b] }));
    assert_eq!(Item::from_options(vec![a]), Err(ItemError::WrongCount(1)));
    assert_eq!(Item::from_options(vec![a, b, a]), Err(ItemError::WrongCount(3)));
    assert_eq!(Item::from_options(vec![]), Err(ItemError::WrongCount(0)));
}

#[test]
fn stats_fields_by_index() {
    let mut s = BaseStats::default();
    s.set(6, 42);
    s.set(5, 3);
    assert_eq!(s.mastery, 42);
    assert_eq!(s.get(6), 42);
    assert_eq!(s.get(5), 3);
    assert_eq!(s.get(7), 0);
    let before = s;
    s.set(7, 99);
    assert_eq!(s, before);
    assert_eq!(s.get(0), 0);
}

#[test]
fn redo_after_undo_restores() {
    let mut app = list_app();
    app.apply(Action::Delete);
    app.apply(Action::Delete);
    let after_delete = app.items.clone();
    app.apply(Action::Undo);
    assert_eq!(app.items, two_items());
    app.apply(Action::Redo);
    assert_eq!(app.items, after_delete);
    assert!(matches!(app.mode, Mode::List));
    // nothing further to redo
    app.apply(Action::Redo);
    assert_eq!(app.items, after_delete);
}

#[test]
fn new_change_clears_redo() {
    let mut app = list_app();
    app.apply(Action::Delete);
    app.apply(Action::Delete);
    app.apply(Action::Undo);
    assert_eq!(app.redo_stack.len(), 1);
    app.apply(Action::Delete);
    app.apply(Action::Delete);
    assert_eq!(app.redo_stack.len(), 0);
    assert_eq!(app.undo_stack.len(), 1);
}

#[test]
fn quit_then_escape_restores_mode() {
    let mut app = list_app();
    app.apply(Action::Enter);
    app.apply(Action::Quit);
    assert!(matches!(app.mode, Mode::QuitConfirm));
    app.apply(Action::Escape);
    assert!(matches!(app.mode, Mode::Edit { item_idx: 0, option_idx: 0 }));
    assert!(app.prev_mode.is_none());
    assert!(!app.should_quit);
}

#[test]
fn save_requests() {
    let mut app = list_app();
    assert_eq!(app.apply(Action::Save), SaveRequest { items: true, stats: false });
    app.mode = Mode::Stats { cursor: 0 };
    assert_eq!(app.apply(Action::Save), SaveRequest { items: false, stats: true });
    app.mode = Mode::List;
    app.apply(Action::Delete);
    app.apply(Action::Delete);
    assert_eq!(app.apply(Action::QuitSave), SaveRequest { items: true, stats: false });
    assert!(app.should_quit);
}

#[test]
fn save_outcomes_raise_notices() {
    let mut app = list_app();
    app.apply(Action::Delete);
    app.apply(Action::Delete);
    assert!(app.dirty);
    app.items_saved(Err("disk full".to_string()));
    assert!(app.dirty);
    assert_eq!(app.flash.as_ref().map(|f| f.0.clone()), Some("저장 실패: disk full".to_string()));
    app.items_saved(Ok(()));
    assert!(!app.dirty);
    assert_eq!(app.flash.as_ref().map(|f| f.0.clone()), Some("✓ 저장됨".to_string()));
    app.expire_flash(1500);
    assert!(app.flash.is_some());
    app.expire_flash(1501);
    assert!(app.flash.is_none());
    app.tick();
    assert!(app.flash.is_none());
}

#[test]
fn stat_editing_flow() {
    let mut app = App::new(vec![], "i.json".to_string(), BaseStats::default(), "s.json".to_string());
    app.apply(Action::Enter); // Home(0) → Stats
    assert!(matches!(app.mode, Mode::Stats { cursor: 0 }));
    app.apply(Action::Down);
    app.apply(Action::Enter); // field 1, buffer "0"
    app.apply(Action::Backspace);
    app.apply(Action::InputChar('-'));
    app.apply(Action::InputChar('4'));
    app.apply(Action::InputChar('-')); // refused: not at the front
    app.apply(Action::Enter);
    assert_eq!(app.stats.magic_equip, -4);
    assert!(app.stats_dirty);
    assert!(!app.dirty);
    assert!(matches!(app.mode, Mode::Stats { cursor: 1 }));
    app.apply(Action::Escape);
    assert!(matches!(app.mode, Mode::Home { cursor: 0 }));
}

#[test]
fn untouched_value_edit_changes_nothing() {
    let mut app = list_app();
    app.apply(Action::Enter);
    app.apply(Action::EditValue);
    app.apply(Action::Enter);
    assert_eq!(app.items, two_items());
    assert!(!app.dirty);
    assert_eq!(app.undo_stack.len(), 0);
    assert!(matches!(app.mode, Mode::Edit { item_idx: 0, option_idx: 0 }));
}

#[test]
fn kind_editing() {
    let mut app = list_app();
    app.apply(Action::Enter);
    app.apply(Action::Right); // option 1 (CritRate, position 2)
    app.apply(Action::EditKind);
    assert!(matches!(app.mode, Mode::EditKind { item_idx: 0, option_idx: 1, kind_cursor: 2 }));
    app.apply(Action::Down);
    app.apply(Action::Enter);
    assert_eq!(app.items[0].options[1].kind, OptionKind::CritDamage);
    assert!(app.dirty);
    assert_eq!(app.undo_stack.len(), 1);
}

#[test]
fn escape_keeps_items() {
    let mut app = list_app();
    for a in [Action::Delete, Action::Escape, Action::AddItem, Action::Escape, Action::Escape] {
        app.apply(a);
    }
    assert_eq!(app.items, two_items());
    assert!(!app.dirty);
}

#[test]
fn composing_second_row_value_missing() {
    let mut app = list_app();
    app.apply(Action::AddItem);
    app.apply(Action::Enter); // row 0: Magic
    app.apply(Action::Escape); // SelectRow with row 0 kind but no value
    if let Mode::Adding(ref s) = app.mode {
        assert!(matches!(s.focus, AddFocus::SelectRow));
        assert!(!s.both_complete());
    } else {
        panic!("not composing");
    }
    app.apply(Action::Confirm); // incomplete: nothing happens
    assert_eq!(app.items.len(), 2);
    assert!(app.is_consistent());
}

#[test]
fn keymap_by_mode() {
    let mut app = list_app();
    assert_eq!(key_to_action(&app, key(KeyCode::Char('u'))), Some(Action::Undo));
    assert_eq!(key_to_action(&app, key(KeyCode::Char('r'))), None);
    assert_eq!(key_to_action(&app, Key { code: KeyCode::Char('r'), ctrl: true }), Some(Action::Redo));
    assert_eq!(key_to_action(&app, key(KeyCode::Char('l'))), Some(Action::Enter));
    app.mode = Mode::ConfirmDelete { item_idx: 0 };
    assert_eq!(key_to_action(&app, key(KeyCode::Char('d'))), Some(Action::Delete));
    assert_eq!(key_to_action(&app, key(KeyCode::Other)), Some(Action::Escape));
    app.mode = Mode::EditValue { item_idx: 0, option_idx: 0, buffer: "1".to_string(), cursor: 1 };
    assert_eq!(key_to_action(&app, key(KeyCode::Char('7'))), Some(Action::InputChar('7')));
    assert_eq!(key_to_action(&app, key(KeyCode::Char('x'))), None);
    app.mode = Mode::QuitConfirm;
    assert_eq!(key_to_action(&app, key(KeyCode::Char('s'))), Some(Action::QuitSave));
    assert_eq!(key_to_action(&app, key(KeyCode::Char('q'))), Some(Action::QuitForce));
    app.mode = Mode::Home { cursor: 0 };
    assert_eq!(key_to_action(&app, key(KeyCode::Char('q'))), Some(Action::Quit));
}

#[test]
fn combinations_in_order() {
    let c = combinations(4, 2);
    assert_eq!(c, vec![vec![0, 1], vec![0, 2], vec![0, 3], vec![1, 2], vec![1, 3], vec![2, 3]]);
    assert_eq!(combinations(3, 0), vec![Vec::<usize>::new()]);
    assert!(combinations(2, 3).is_empty());
    assert_eq!(combinations(5, 3).len(), 10);
}

#[test]
fn crit_rate_totals() {
    let items = two_items();
    let base = BaseStats { crit_rate: 80, ..Default::default() };
    let both: Vec<&Item> = items.iter().collect();
    assert_eq!(total_crit_rate(&base, &both), 100);
    assert!(reaches_crit_cap(&base, &both));
    let first: Vec<&Item> = vec![&items[0]];
    assert_eq!(total_crit_rate(&base, &first), 87);
    assert!(!reaches_crit_cap(&base, &first));
}

#[test]
fn offsets_keep_selection_in_view() {
    assert_eq!(compute_offset(5, 0, 0), 0);
    assert_eq!(compute_offset(9, 1, 9), 1);
    assert_eq!(compute_offset(8, 1, 9), 1);
    assert_eq!(compute_offset(10, 1, 9), 2);
    assert_eq!(compute_offset(0, 3, 4), 0);
}

#[test]
fn padding_uses_display_width() {
    // two wide characters take four cells
    assert_eq!(pad_kind("마력"), format!("마력{}", " ".repeat(16)));
    assert_eq!(pad_kind("abc"), format!("abc{}", " ".repeat(17)));
    assert_eq!(pad_kind("재사용 대기시간 감소"), "재사용 대기시간 감소");
}

#[test]
fn cursor_splits() {
    assert_eq!(cursor_parts("150", 1), ("1".to_string(), "5".to_string(), "0".to_string()));
    assert_eq!(cursor_parts("150", 3), ("150".to_string(), " ".to_string(), String::new()));
}

#[test]
fn untouched_stat_edit_keeps_values() {
    let stats = BaseStats { crit_damage: 150, ..Default::default() };
    let mut app = App::new(vec![], "i.json".to_string(), stats, "s.json".to_string());
    app.mode = Mode::Stats { cursor: 4 };
    app.apply(Action::Enter);
    assert!(matches!(app.mode, Mode::EditStatValue { field_idx: 4, cursor: 3, .. }));
    app.apply(Action::Enter);
    assert_eq!(app.stats, stats);
    assert!(app.stats_dirty);
    assert!(matches!(app.mode, Mode::Stats { cursor: 4 }));
}

#[test]
fn every_action_keeps_the_state_consistent() {
    let mut app = list_app();
    let script = [
        Action::Down, Action::Down, Action::Enter, Action::Down, Action::EditKind, Action::Down,
        Action::Enter, Action::EditValue, Action::Left, Action::InputChar('-'), Action::Backspace,
        Action::Enter, Action::Escape, Action::Delete, Action::Delete, Action::Delete,
        Action::Delete, Action::Undo, Action::Undo, Action::Redo, Action::AddItem, Action::Down,
        Action::Enter, Action::InputChar('9'), Action::Enter, Action::Enter, Action::InputChar('1'),
        Action::Enter, Action::Confirm, Action::Quit, Action::Escape, Action::Escape, Action::Up,
        Action::Enter, Action::Enter, Action::InputChar('3'), Action::Enter, Action::Save,
    ];
    for a in script {
        app.apply(a);
        assert!(app.is_consistent(), "after {a:?}");
    }
}

#[test]
fn strength_totals_sum_clamp_and_cap() {
    let base = BaseStats {
        magic_base: 100,
        magic_equip: 20,
        magic_crystal: 5,
        crit_rate: 50,
        crit_damage: 150,
        cooldown_reduction: 3,
        mastery: 90,
    };
    let a = Item { options: [opt(OptionKind::Magic, 10), opt(OptionKind::MagicPercent, 4)] };
    let b = Item { options: [opt(OptionKind::CooldownReduction, 8), opt(OptionKind::Mastery, 15)] };
    let c = Item { options: [opt(OptionKind::CritDamage, 7), opt(OptionKind::Magic, -3)] };
    let t = strength_totals(&base, &[&a, &b, &c]).unwrap();
    assert_eq!(
        t,
        StrengthTotals { magic: 122, magic_percent: 4, crit_damage: 157, cooldown_step: 9, mastery: 100 }
    );
    let t = strength_totals(&base, &[]).unwrap();
    assert_eq!(
        t,
        StrengthTotals { magic: 115, magic_percent: 0, crit_damage: 150, cooldown_step: 3, mastery: 90 }
    );
    let neg = BaseStats { cooldown_reduction: -4, ..base };
    assert_eq!(strength_totals(&neg, &[]).unwrap().cooldown_step, 0);
    let big = Item { options: [opt(OptionKind::Magic, i32::MAX), opt(OptionKind::Magic, -i32::MAX)] };
    assert_eq!(strength_totals(&base, &[&big]), None);
    let over = BaseStats { magic_base: i32::MAX, ..base };
    assert_eq!(strength_totals(&over, &[]), None);
}

#[test]
fn pad_to_given_width() {
    assert_eq!(pad_to("ab", 2), format!("ab{}", " ".repeat(18)));
    assert_eq!(pad_to("마력", 4), format!("마력{}", " ".repeat(16)));
    assert_eq!(pad_to("x", 25), "x");
    assert_eq!(pad_to("", 20), "");
}
