use lucid_optimizer::app::{Action, AddFocus, AddState, App, Mode};
use lucid_optimizer::item::{Item, ItemOption, OptionKind};
use lucid_optimizer::screen::{
    add_option_row, add_overlay_lines, centered_popup, empty_list_segments, hint_segments, quit_prompt,
    title_segments, visible_rows, Segment, Tone,
};
use lucid_optimizer::stats::BaseStats;

fn opt(kind: OptionKind, value: i32) -> ItemOption {
    ItemOption { kind, value }
}

fn items(n: usize) -> Vec<Item> {
    (0..n)
        .map(|i| Item { options: [opt(OptionKind::Magic, i as i32), opt(OptionKind::CritRate, -(i as i32))] })
        .collect()
}

fn app_with(n: usize) -> App {
    let mut app = App::new(items(n), "i.json".to_string(), BaseStats::default(), "s.json".to_string());
    app.mode = Mode::List;
    app
}

fn texts(segs: &[Segment]) -> Vec<String> {
    segs.iter().map(|s| s.text.clone()).collect()
}

fn joined(segs: &[Segment]) -> String {
    segs.iter().map(|s| s.text.as_str()).collect()
}

#[test]
fn enter_on_finished_composer_adds_item() {
    let mut app = app_with(1);
    app.apply(Action::AddItem); // kind list for row 0
    app.apply(Action::Enter); // Magic, then its value
    app.apply(Action::InputChar('5'));
    app.apply(Action::Enter); // kind list for row 1
    app.apply(Action::Down);
    app.apply(Action::Enter); // MagicPercent, then its value
    app.apply(Action::InputChar('3'));
    app.apply(Action::Enter); // back to the rows
    if let Mode::Adding(s) = &app.mode {
        assert!(matches!(s.focus, AddFocus::SelectRow));
        assert!(s.both_complete());
    } else {
        panic!("not composing: {:?}", app.mode);
    }
    app.apply(Action::Enter);
    assert!(matches!(app.mode, Mode::List));
    assert_eq!(app.items.len(), 2);
    assert_eq!(app.items[1], Item { options: [opt(OptionKind::Magic, 5), opt(OptionKind::MagicPercent, 3)] });
    assert!(app.dirty);
    assert_eq!(app.selected, 1);
    assert_eq!(app.undo_stack.len(), 1);
}

#[test]
fn enter_on_unfinished_composer_opens_kind_list() {
    let mut app = app_with(1);
    app.apply(Action::AddItem);
    app.apply(Action::Escape);
    app.apply(Action::Down);
    app.apply(Action::Enter);
    match &app.mode {
        Mode::Adding(s) => assert!(matches!(s.focus, AddFocus::SelectKind(1))),
        m => panic!("not composing: {m:?}"),
    }
    assert_eq!(app.items.len(), 1);
}

#[test]
fn edit_arrows_switch_options_and_leave() {
    let mut app = app_with(3);
    app.selected = 1;
    app.mode = Mode::Edit { item_idx: 1, option_idx: 0 };
    app.apply(Action::Right);
    assert!(matches!(app.mode, Mode::Edit { item_idx: 1, option_idx: 1 }));
    app.apply(Action::Left);
    assert!(matches!(app.mode, Mode::Edit { item_idx: 1, option_idx: 0 }));
    app.apply(Action::Up);
    assert!(matches!(app.mode, Mode::List));
    assert_eq!(app.selected, 0);
    app.mode = Mode::Edit { item_idx: 2, option_idx: 1 };
    app.apply(Action::Down);
    assert!(matches!(app.mode, Mode::List));
    assert_eq!(app.selected, 2);
    app.mode = Mode::Edit { item_idx: 0, option_idx: 1 };
    app.apply(Action::Up);
    assert_eq!(app.selected, 0);
    assert!(!app.dirty);
}

#[test]
fn undo_and_redo_without_history_change_nothing() {
    let mut app = app_with(2);
    app.apply(Action::Undo);
    app.apply(Action::Redo);
    assert_eq!(app.items, items(2));
    assert!(!app.dirty);
    assert!(matches!(app.mode, Mode::List));
}

#[test]
fn hint_for_list_and_composer() {
    let h = hint_segments(&Mode::List, false);
    assert_eq!(
        joined(&h),
        "↑↓: 이동  |  Enter: 편집  |  a: 추가  |  d: 삭제  |  s: 저장  |  u: 되돌리기  |  q: 종료"
    );
    assert_eq!(h[0].tone, Tone::Accent);
    assert_eq!(h[1].tone, Tone::Muted);
    let mut s = AddState::new();
    s.focus = AddFocus::SelectRow;
    let h = hint_segments(&Mode::Adding(s.clone()), false);
    assert_eq!(joined(&h), "추가 중  ↑↓: 이동  |  Enter: 옵션 설정  |  Esc: 취소");
    s.kind1 = Some(OptionKind::Magic);
    s.value1 = "1".to_string();
    s.kind2 = Some(OptionKind::Mastery);
    s.value2 = "2".to_string();
    let h = hint_segments(&Mode::Adding(s), false);
    assert_eq!(joined(&h), "추가 중  ↑↓: 이동  |  Enter: 완료  |  Esc: 취소");
    let h = hint_segments(&Mode::Home { cursor: 0 }, false);
    assert_eq!(joined(&h), "↑↓: 이동  |  Enter: 선택  |  q: 종료");
    let h = hint_segments(&Mode::QuitConfirm, true);
    assert_eq!(joined(&h), "s: 저장 후 종료  q: 그냥 종료  Esc: 취소");
    let h = hint_segments(&Mode::ConfirmDelete { item_idx: 0 }, false);
    assert_eq!(h[1].text, "d");
    assert!(h[1].bold);
    assert_eq!(h[1].tone, Tone::Danger);
}

#[test]
fn title_shows_count_and_state() {
    let mut app = app_with(3);
    assert_eq!(texts(&title_segments(&app)), vec![" Items (3)", "  ", ""]);
    app.dirty = true;
    let t = title_segments(&app);
    assert_eq!(t[2].text, "● 저장 안 됨");
    assert_eq!(t[2].tone, Tone::Warn);
    assert!(t[0].bold);
    app.items_saved(Ok(()));
    let t = title_segments(&app);
    assert_eq!(t[2].tone, Tone::Good);
    assert!(!t[2].text.is_empty());
    assert_eq!(joined(&empty_list_segments()), "아이템이 없습니다. a를 눌러 추가하세요.");
}

#[test]
fn rows_in_view() {
    let mut app = app_with(5);
    app.selected = 4;
    let (offset, rows) = visible_rows(&mut app, 2);
    assert_eq!(offset, 3);
    assert_eq!(app.scroll_offset, 3);
    assert_eq!(rows.len(), 2);
    assert_eq!(joined(&rows[0].0), "   4. 마력: 3");
    assert_eq!(joined(&rows[1].0), " ▶ 5. 마력: 4");
    assert_eq!(rows[1].0[0].tone, Tone::Accent);
    assert_eq!(joined(&rows[1].1), "      크리티컬 확률: -4");
    app.mode = Mode::ConfirmDelete { item_idx: 4 };
    let (_, rows) = visible_rows(&mut app, 2);
    assert_eq!(joined(&rows[1].0), " ▶ 5. 마력: 4  (삭제하려면 d 한 번 더)");
    assert_eq!(rows[1].0[0].tone, Tone::Danger);
    assert_eq!(rows[1].0[1].tone, Tone::Danger);
    app.mode = Mode::EditValue { item_idx: 4, option_idx: 1, buffer: "-42".to_string(), cursor: 1 };
    let (_, rows) = visible_rows(&mut app, 2);
    assert_eq!(texts(&rows[1].1), vec!["      ", "크리티컬 확률: ", "-", "4", "2"]);
    assert!(rows[1].1[3].reversed);
    assert_eq!(rows[1].0[2].tone, Tone::AccentDim);
    app.mode = Mode::Edit { item_idx: 4, option_idx: 0 };
    app.scroll_offset = 0;
    let (_, rows) = visible_rows(&mut app, 3);
    assert_eq!(app.scroll_offset, 2);
    assert_eq!(rows.len(), 3);
    assert!(rows[2].0[3].underline);
    let (offset, rows) = visible_rows(&mut app, 0);
    assert_eq!(offset, 0);
    assert_eq!(app.scroll_offset, 0);
    assert!(rows.is_empty());
}

#[test]
fn scrolling_is_stored_and_moves_only_when_needed() {
    let mut app = app_with(10);
    app.selected = 8;
    let (offset, _) = visible_rows(&mut app, 3);
    assert_eq!((offset, app.scroll_offset), (6, 6));
    app.selected = 7;
    let (offset, rows) = visible_rows(&mut app, 3);
    assert_eq!((offset, app.scroll_offset), (6, 6));
    assert_eq!(joined(&rows[1].0), " ▶ 8. 마력: 7");
    app.selected = 6;
    visible_rows(&mut app, 3);
    assert_eq!(app.scroll_offset, 6);
    app.selected = 5;
    visible_rows(&mut app, 3);
    assert_eq!(app.scroll_offset, 5);
    app.scroll_offset = 1;
    app.selected = 8;
    visible_rows(&mut app, 9);
    assert_eq!(app.scroll_offset, 1);
}

#[test]
fn quit_prompt_texts() {
    let (tone, title, body) = quit_prompt(true);
    assert_eq!(tone, Tone::Warn);
    assert_eq!(title, " 저장 안 된 변경이 있습니다 ");
    assert_eq!(joined(&body), "s: 저장 후 종료  q: 그냥 종료  Esc: 취소");
    let (tone, title, body) = quit_prompt(false);
    assert_eq!(tone, Tone::Accent);
    assert_eq!(title, " 종료 확인 ");
    assert_eq!(texts(&body), vec!["q", ": 종료  ", "Esc", ": 취소"]);
}

#[test]
fn popups_are_centred() {
    assert_eq!(centered_popup(0, 0, 100, 40, 50, 5), (25, 17, 50, 5));
    assert_eq!(centered_popup(2, 1, 30, 3, 54, 12), (4, 1, 26, 12));
    assert_eq!(centered_popup(0, 0, 2, 2, 54, 12), (1, 0, 0, 12));
}

#[test]
fn composer_lines() {
    let mut s = AddState::new();
    s.focus = AddFocus::SelectRow;
    let row = add_option_row(&s, 1);
    assert_eq!(texts(&row)[0], " ▶ ");
    assert_eq!(row[2].text, format!("{}{}", "<옵션 선택>", " ".repeat(9)));
    assert_eq!(row.last().unwrap().text, "<값 입력>");
    let row2 = add_option_row(&s, 2);
    assert_eq!(row2[0].text, "   ");
    assert_eq!(row2[1].tone, Tone::Muted);
    assert!(add_option_row(&s, 3).is_empty());
    let lines = add_overlay_lines(&s);
    assert_eq!(lines.len(), 10);
    assert!(lines[3].is_empty());
    s.focus = AddFocus::SelectKind(0);
    s.kind_cursor = 2;
    let lines = add_overlay_lines(&s);
    assert_eq!(lines.len(), 10);
    assert_eq!(joined(&lines[3]), "  옵션 1 선택:");
    assert_eq!(joined(&lines[6]), "   ▶ 크리티컬 확률");
    assert!(lines[6][1].bold);
    assert_eq!(joined(&lines[4]), "     마력");
    s.kind1 = Some(OptionKind::Magic);
    s.value1 = "12".to_string();
    s.focus = AddFocus::InputValue(0);
    s.val_cursor = 2;
    let row = add_option_row(&s, 1);
    assert_eq!(row[2].text, format!("마력{}", " ".repeat(16)));
    assert_eq!(texts(&row)[4..].to_vec(), vec!["12", " "]);
    assert!(row[5].reversed);
}
