//! The item editor's state and the transitions that actions cause.
//!
//! `App::apply` is a pure state machine: it never touches a file. Saving is
//! requested through the returned `SaveRequest`; the caller performs it and
//! reports the outcome through `items_saved` / `stats_saved`.

use vstd::prelude::*;

use crate::item::{all_kinds, kind_index, Item, ItemOption, OptionKind};
use crate::stats::{BaseStats, FIELD_COUNT};
use crate::text::{
    all_ascii, ascii_len, format_i32, int_decimal, is_ascii_digit, is_digit, parse_i32,
    parse_i32_spec, starts_with_char, string_insert, string_remove,
};

verus! {

/// Where the keyboard focus is while a new item is being composed.
#[derive(Debug, Clone, Copy, PartialEq, Eq, Structural)]
pub enum AddFocus {
    /// Choosing which of the two option rows to work on.
    SelectRow,
    /// Choosing the kind of option row `0` or `1`.
    SelectKind(u8),
    /// Typing the value of option row `0` or `1`.
    InputValue(u8),
}

/// The item being composed.
#[derive(Debug, Clone)]
pub struct AddState {
    pub kind1: Option<OptionKind>,
    pub value1: String,
    pub kind2: Option<OptionKind>,
    pub value2: String,
    pub val_draft: String,
    pub focus: AddFocus,
    pub row_cursor: usize,
    pub kind_cursor: usize,
    pub val_cursor: usize,
}

/// What the editor shows and how it reads the next action.
#[derive(Debug, Clone)]
pub enum Mode {
    Home { cursor: usize },
    List,
    Stats { cursor: usize },
    EditStatValue { field_idx: usize, buffer: String, cursor: usize },
    Edit { item_idx: usize, option_idx: usize },
    EditKind { item_idx: usize, option_idx: usize, kind_cursor: usize },
    EditValue { item_idx: usize, option_idx: usize, buffer: String, cursor: usize },
    Adding(AddState),
    ConfirmDelete { item_idx: usize },
    QuitConfirm,
}

/// A user intention, already decoded from a key press.
#[derive(Debug, Clone, Copy, PartialEq, Eq, Structural)]
pub enum Action {
    Up,
    Down,
    Left,
    Right,
    Enter,
    Escape,
    InputChar(char),
    Backspace,
    Save,
    Delete,
    AddItem,
    EditKind,
    EditValue,
    Confirm,
    Undo,
    Redo,
    Quit,
    QuitForce,
    QuitSave,
}

/// Which files an action asks to have written.
#[derive(Debug, Clone, Copy, PartialEq, Eq, Structural)]
pub struct SaveRequest {
    pub items: bool,
    pub stats: bool,
}

// ---------------------------------------------------------------------------
// Mathematical model
// ---------------------------------------------------------------------------

/// `AddState` with its texts as character sequences.
pub struct AddView {
    pub kind1: Option<OptionKind>,
    pub value1: Seq<char>,
    pub kind2: Option<OptionKind>,
    pub value2: Seq<char>,
    pub val_draft: Seq<char>,
    pub focus: AddFocus,
    pub row_cursor: usize,
    pub kind_cursor: usize,
    pub val_cursor: usize,
}

impl View for AddState {
    type V = AddView;

    open spec fn view(&self) -> AddView {
        AddView {
            kind1: self.kind1,
            value1: self.value1@,
            kind2: self.kind2,
            value2: self.value2@,
            val_draft: self.val_draft@,
            focus: self.focus,
            row_cursor: self.row_cursor,
            kind_cursor: self.kind_cursor,
            val_cursor: self.val_cursor,
        }
    }
}

/// `Mode` with its texts as character sequences.
pub enum ModeView {
    Home { cursor: usize },
    List,
    Stats { cursor: usize },
    EditStatValue { field_idx: usize, buffer: Seq<char>, cursor: usize },
    Edit { item_idx: usize, option_idx: usize },
    EditKind { item_idx: usize, option_idx: usize, kind_cursor: usize },
    EditValue { item_idx: usize, option_idx: usize, buffer: Seq<char>, cursor: usize },
    Adding(AddView),
    ConfirmDelete { item_idx: usize },
    QuitConfirm,
}

impl View for Mode {
    type V = ModeView;

    open spec fn view(&self) -> ModeView {
        match self {
            Mode::Home { cursor } => ModeView::Home { cursor: *cursor },
            Mode::List => ModeView::List,
            Mode::Stats { cursor } => ModeView::Stats { cursor: *cursor },
            Mode::EditStatValue { field_idx, buffer, cursor } => ModeView::EditStatValue {
                field_idx: *field_idx,
                buffer: buffer@,
                cursor: *cursor,
            },
            Mode::Edit { item_idx, option_idx } => ModeView::Edit {
                item_idx: *item_idx,
                option_idx: *option_idx,
            },
            Mode::EditKind { item_idx, option_idx, kind_cursor } => ModeView::EditKind {
                item_idx: *item_idx,
                option_idx: *option_idx,
                kind_cursor: *kind_cursor,
            },
            Mode::EditValue { item_idx, option_idx, buffer, cursor } => ModeView::EditValue {
                item_idx: *item_idx,
                option_idx: *option_idx,
                buffer: buffer@,
                cursor: *cursor,
            },
            Mode::Adding(st) => ModeView::Adding(st@),
            Mode::ConfirmDelete { item_idx } => ModeView::ConfirmDelete { item_idx: *item_idx },
            Mode::QuitConfirm => ModeView::QuitConfirm,
        }
    }
}

/// The editor's state, as the transitions speak of it. Of the notice on
/// screen it holds the message; no action changes it.
pub struct AppView {
    pub items: Seq<Item>,
    pub stats: BaseStats,
    pub mode: ModeView,
    pub selected: usize,
    pub scroll_offset: usize,
    pub dirty: bool,
    pub stats_dirty: bool,
    pub should_quit: bool,
    pub file_path: Seq<char>,
    pub stats_path: Seq<char>,
    pub prev_mode: Option<ModeView>,
    pub undo: Seq<Seq<Item>>,
    pub redo: Seq<Seq<Item>>,
    pub flash: Option<Seq<char>>,
}

pub open spec fn sat_dec(x: usize) -> usize {
    if x > 0 {
        (x - 1) as usize
    } else {
        0
    }
}

/// `min(x + 1, cap)`.
pub open spec fn inc_to(x: usize, cap: int) -> usize {
    if x + 1 <= cap {
        (x + 1) as usize
    } else {
        cap as usize
    }
}

/// Whether a typed character is taken into a value buffer at `cursor`:
/// any digit, and a minus sign only in front of a buffer without one.
pub open spec fn accepts_char(c: char, cursor: usize, buf: Seq<char>) -> bool {
    (c == '-' && cursor == 0 && !(buf.len() > 0 && buf[0] == '-')) || is_digit(c)
}

/// A text that holds a number: nonempty and readable as an `i32`.
pub open spec fn holds_number(s: Seq<char>) -> bool {
    s.len() > 0 && parse_i32_spec(s) is Some
}

/// Both rows of the item being composed have a kind and a number.
pub open spec fn add_complete(a: AddView) -> bool {
    a.kind1 is Some && holds_number(a.value1) && a.kind2 is Some && holds_number(a.value2)
}

/// A freshly opened item composer.
pub open spec fn fresh_add() -> AddView {
    AddView {
        kind1: None,
        value1: Seq::empty(),
        kind2: None,
        value2: Seq::empty(),
        val_draft: Seq::empty(),
        focus: AddFocus::SelectKind(0),
        row_cursor: 0,
        kind_cursor: 0,
        val_cursor: 0,
    }
}

/// A text buffer with a cursor that the editing actions can work on.
pub open spec fn buffer_ok(buf: Seq<char>, cursor: usize) -> bool {
    all_ascii(buf) && cursor <= buf.len()
}

/// A text no longer than a `String` can be.
pub open spec fn fits(s: Seq<char>) -> bool {
    s.len() <= isize::MAX
}

/// Every text that a mode holds fits in a `String`.
pub open spec fn mode_fits(m: ModeView) -> bool {
    match m {
        ModeView::EditStatValue { buffer, .. } => fits(buffer),
        ModeView::EditValue { buffer, .. } => fits(buffer),
        ModeView::Adding(a) => fits(a.val_draft) && fits(a.value1) && fits(a.value2),
        _ => true,
    }
}

pub open spec fn add_ok(a: AddView) -> bool {
    &&& a.row_cursor <= 1
    &&& a.kind_cursor < 6
    &&& buffer_ok(a.val_draft, a.val_cursor)
    &&& all_ascii(a.value1)
    &&& all_ascii(a.value2)
    &&& match a.focus {
        AddFocus::SelectRow => true,
        AddFocus::SelectKind(r) => r <= 1,
        AddFocus::InputValue(r) => r <= 1,
    }
}

/// The indices that a mode holds are in range for `n` items.
pub open spec fn mode_ok(m: ModeView, n: nat) -> bool {
    match m {
        ModeView::Home { .. } => true,
        ModeView::List => true,
        ModeView::Stats { .. } => true,
        ModeView::EditStatValue { buffer, cursor, .. } => buffer_ok(buffer, cursor),
        ModeView::Edit { item_idx, option_idx } => item_idx < n && option_idx < 2,
        ModeView::EditKind { item_idx, option_idx, kind_cursor } => item_idx < n && option_idx
            < 2 && kind_cursor < 6,
        ModeView::EditValue { item_idx, option_idx, buffer, cursor } => item_idx < n
            && option_idx < 2 && buffer_ok(buffer, cursor),
        ModeView::Adding(a) => add_ok(a),
        ModeView::ConfirmDelete { item_idx } => item_idx < n,
        ModeView::QuitConfirm => true,
    }
}

/// `a` does not step a cursor past the largest `usize` (moving down from a
/// home or stats cursor at `usize::MAX` would).
pub open spec fn step_fits(s: AppView, a: Action) -> bool {
    match s.mode {
        ModeView::Home { cursor } => a is Down ==> cursor < usize::MAX,
        ModeView::Stats { cursor } => a is Down ==> cursor < usize::MAX,
        _ => true,
    }
}

impl AppView {
    /// The state invariant: every index the state holds is in range.
    pub open spec fn wf(self) -> bool {
        &&& self.items.len() > 0 ==> self.selected < self.items.len()
        &&& mode_ok(self.mode, self.items.len())
        &&& self.mode is QuitConfirm ==> match self.prev_mode {
            Some(m) => mode_ok(m, self.items.len()),
            None => true,
        }
    }

    pub open spec fn with_mode(self, m: ModeView) -> AppView {
        AppView { mode: m, ..self }
    }

    /// Records the current items so that `Undo` can bring them back.
    pub open spec fn push_undo(self) -> AppView {
        AppView { undo: self.undo.push(self.items), redo: Seq::empty(), ..self }
    }

    /// Keeps the selection on an existing item.
    pub open spec fn clamp_selected(self) -> AppView {
        AppView {
            selected: if self.items.len() == 0 {
                0
            } else if self.selected <= self.items.len() - 1 {
                self.selected
            } else {
                (self.items.len() - 1) as usize
            },
            ..self
        }
    }

    /// Replaces the items with a recorded snapshot, marking them unsaved.
    pub open spec fn restore(self, items: Seq<Item>) -> AppView {
        AppView { items, dirty: true, mode: ModeView::List, ..self }.clamp_selected()
    }
}

/// The item with option `o` set to kind `k`.
pub open spec fn item_with_kind(it: Item, o: usize, k: OptionKind) -> Item {
    if o == 0 {
        Item { options: [ItemOption { kind: k, value: it.options[0].value }, it.options[1]] }
    } else {
        Item { options: [it.options[0], ItemOption { kind: k, value: it.options[1].value }] }
    }
}

/// The item with option `o` set to value `v`.
pub open spec fn item_with_value(it: Item, o: usize, v: i32) -> Item {
    if o == 0 {
        Item { options: [ItemOption { kind: it.options[0].kind, value: v }, it.options[1]] }
    } else {
        Item { options: [it.options[0], ItemOption { kind: it.options[1].kind, value: v }] }
    }
}

/// Moves a cursor or edits a value buffer; `None` for any other action.
pub open spec fn edit_buffer(a: Action, buf: Seq<char>, cur: usize) -> Option<(Seq<char>, usize)> {
    match a {
        Action::Left => Some((buf, sat_dec(cur))),
        Action::Right => Some((buf, inc_to(cur, buf.len() as int))),
        Action::InputChar(c) => if accepts_char(c, cur, buf) {
            Some((buf.insert(cur as int, c), (cur + 1) as usize))
        } else {
            Some((buf, cur))
        },
        Action::Backspace => if cur > 0 {
            Some((buf.remove(cur - 1), (cur - 1) as usize))
        } else {
            Some((buf, cur))
        },
        _ => None,
    }
}

#[verifier::opaque]
pub open spec fn home_next(s: AppView, a: Action, cursor: usize) -> AppView {
    match a {
        Action::Up => s.with_mode(ModeView::Home { cursor: sat_dec(cursor) }),
        Action::Down => s.with_mode(ModeView::Home { cursor: inc_to(cursor, 1) }),
        Action::Enter => if cursor == 0 {
            s.with_mode(ModeView::Stats { cursor: 0 })
        } else {
            s.with_mode(ModeView::List)
        },
        _ => s.with_mode(ModeView::Home { cursor }),
    }
}

#[verifier::opaque]
pub open spec fn stats_next(s: AppView, a: Action, cursor: usize) -> AppView {
    match a {
        Action::Up => s.with_mode(ModeView::Stats { cursor: sat_dec(cursor) }),
        Action::Down => s.with_mode(ModeView::Stats { cursor: inc_to(cursor, FIELD_COUNT - 1) }),
        Action::Enter => {
            let buf = int_decimal(s.stats.field(cursor as int) as int);
            s.with_mode(
                ModeView::EditStatValue { field_idx: cursor, buffer: buf, cursor: buf.len() as usize },
            )
        },
        Action::Escape => s.with_mode(ModeView::Home { cursor: 0 }),
        _ => s.with_mode(ModeView::Stats { cursor }),
    }
}

#[verifier::opaque]
pub open spec fn edit_stat_value_next(
    s: AppView,
    a: Action,
    field_idx: usize,
    buf: Seq<char>,
    cur: usize,
) -> AppView {
    match edit_buffer(a, buf, cur) {
        Some((b, c)) => s.with_mode(ModeView::EditStatValue { field_idx, buffer: b, cursor: c }),
        None => match a {
            Action::Enter => {
                let s2 = match parse_i32_spec(buf) {
                    Some(v) => AppView {
                        stats: s.stats.with_field(field_idx as int, v),
                        stats_dirty: true,
                        ..s
                    },
                    None => s,
                };
                s2.with_mode(ModeView::Stats { cursor: field_idx })
            },
            Action::Escape => s.with_mode(ModeView::Stats { cursor: field_idx }),
            _ => s.with_mode(ModeView::EditStatValue { field_idx, buffer: buf, cursor: cur }),
        },
    }
}

#[verifier::opaque]
pub open spec fn list_next(s: AppView, a: Action) -> AppView {
    let n = s.items.len();
    if a == Action::Up && s.selected > 0 {
        AppView { selected: (s.selected - 1) as usize, mode: ModeView::List, ..s }
    } else if a == Action::Down && n > 0 && s.selected + 1 < n {
        AppView { selected: (s.selected + 1) as usize, mode: ModeView::List, ..s }
    } else if (a == Action::Enter || a == Action::Right) && n > 0 {
        s.with_mode(ModeView::Edit { item_idx: s.selected, option_idx: 0 })
    } else if a == Action::AddItem {
        s.with_mode(ModeView::Adding(fresh_add()))
    } else if a == Action::Delete && n > 0 {
        s.with_mode(ModeView::ConfirmDelete { item_idx: s.selected })
    } else if a == Action::Escape {
        s.with_mode(ModeView::Home { cursor: 1 })
    } else {
        s.with_mode(ModeView::List)
    }
}

#[verifier::opaque]
pub open spec fn edit_next(s: AppView, a: Action, i: usize, o: usize) -> AppView {
    let opt = s.items[i as int].options[o as int];
    match a {
        Action::Left => s.with_mode(ModeView::Edit { item_idx: i, option_idx: 0 }),
        Action::Right => s.with_mode(ModeView::Edit { item_idx: i, option_idx: 1 }),
        Action::Up => AppView { selected: sat_dec(i), mode: ModeView::List, ..s },
        Action::Down => AppView {
            selected: inc_to(i, s.items.len() - 1),
            mode: ModeView::List,
            ..s
        },
        Action::EditKind => s.with_mode(
            ModeView::EditKind { item_idx: i, option_idx: o, kind_cursor: kind_index(opt.kind) },
        ),
        Action::Enter | Action::EditValue => {
            let buf = int_decimal(opt.value as int);
            s.with_mode(
                ModeView::EditValue {
                    item_idx: i,
                    option_idx: o,
                    buffer: buf,
                    cursor: buf.len() as usize,
                },
            )
        },
        Action::Escape => AppView { selected: i, mode: ModeView::List, ..s },
        _ => s.with_mode(ModeView::Edit { item_idx: i, option_idx: o }),
    }
}

#[verifier::opaque]
pub open spec fn edit_kind_next(s: AppView, a: Action, i: usize, o: usize, kc: usize) -> AppView {
    match a {
        Action::Up => s.with_mode(
            ModeView::EditKind { item_idx: i, option_idx: o, kind_cursor: sat_dec(kc) },
        ),
        Action::Down => s.with_mode(
            ModeView::EditKind { item_idx: i, option_idx: o, kind_cursor: inc_to(kc, 5) },
        ),
        Action::Enter => {
            let k = all_kinds()[kc as int];
            let it = s.items[i as int];
            let s2 = if k != it.options[o as int].kind {
                let u = s.push_undo();
                AppView { items: u.items.update(i as int, item_with_kind(it, o, k)), dirty: true, ..u }
            } else {
                s
            };
            s2.with_mode(ModeView::Edit { item_idx: i, option_idx: o })
        },
        Action::Escape => s.with_mode(ModeView::Edit { item_idx: i, option_idx: o }),
        _ => s.with_mode(ModeView::EditKind { item_idx: i, option_idx: o, kind_cursor: kc }),
    }
}

#[verifier::opaque]
pub open spec fn edit_value_next(
    s: AppView,
    a: Action,
    i: usize,
    o: usize,
    buf: Seq<char>,
    cur: usize,
) -> AppView {
    match edit_buffer(a, buf, cur) {
        Some((b, c)) => s.with_mode(
            ModeView::EditValue { item_idx: i, option_idx: o, buffer: b, cursor: c },
        ),
        None => match a {
            Action::Enter => {
                let it = s.items[i as int];
                let s2 = match parse_i32_spec(buf) {
                    Some(v) => if v != it.options[o as int].value {
                        let u = s.push_undo();
                        AppView {
                            items: u.items.update(i as int, item_with_value(it, o, v)),
                            dirty: true,
                            ..u
                        }
                    } else {
                        s
                    },
                    None => s,
                };
                s2.with_mode(ModeView::Edit { item_idx: i, option_idx: o })
            },
            Action::Escape => s.with_mode(ModeView::Edit { item_idx: i, option_idx: o }),
            _ => s.with_mode(
                ModeView::EditValue { item_idx: i, option_idx: o, buffer: buf, cursor: cur },
            ),
        },
    }
}

/// The item that a complete composer describes.
pub open spec fn composed_item(st: AddView) -> Item {
    Item {
        options: [
            ItemOption { kind: st.kind1.unwrap(), value: parse_i32_spec(st.value1).unwrap() },
            ItemOption { kind: st.kind2.unwrap(), value: parse_i32_spec(st.value2).unwrap() },
        ],
    }
}

/// The composer with the kind list opened for the current row, its cursor
/// on the row's kind.
pub open spec fn open_kind_pick(st: AddView) -> AddView {
    let row = st.row_cursor as u8;
    let rk = if row == 0 { st.kind1 } else { st.kind2 };
    let kc = match rk {
        Some(k) => kind_index(k),
        None => 0,
    };
    AddView { kind_cursor: kc, focus: AddFocus::SelectKind(row), ..st }
}

/// The state once the composed item is appended and selected.
pub open spec fn add_composed(s: AppView, st: AddView) -> AppView {
    let u = s.push_undo();
    AppView {
        items: u.items.push(composed_item(st)),
        selected: s.items.len() as usize,
        dirty: true,
        mode: ModeView::List,
        ..u
    }
}

#[verifier::opaque]
pub open spec fn select_row_next(s: AppView, a: Action, st: AddView) -> AppView {
    let row = st.row_cursor as u8;
    match a {
        Action::Up => s.with_mode(ModeView::Adding(AddView { row_cursor: sat_dec(st.row_cursor), ..st })),
        Action::Down => s.with_mode(ModeView::Adding(AddView { row_cursor: inc_to(st.row_cursor, 1), ..st })),
        Action::EditKind => s.with_mode(ModeView::Adding(open_kind_pick(st))),
        Action::Enter => if add_complete(st) {
            add_composed(s, st)
        } else {
            s.with_mode(ModeView::Adding(open_kind_pick(st)))
        },
        Action::EditValue => {
            let has_kind = if row == 0 { st.kind1 is Some } else { st.kind2 is Some };
            if has_kind {
                let val = if row == 0 { st.value1 } else { st.value2 };
                s.with_mode(ModeView::Adding(AddView {
                    val_cursor: val.len() as usize,
                    val_draft: val,
                    focus: AddFocus::InputValue(row),
                    ..st
                }))
            } else {
                s.with_mode(ModeView::Adding(st))
            }
        },
        Action::Confirm => if add_complete(st) {
            add_composed(s, st)
        } else {
            s.with_mode(ModeView::Adding(st))
        },
        Action::Escape => s.with_mode(ModeView::List),
        _ => s.with_mode(ModeView::Adding(st)),
    }
}

#[verifier::opaque]
pub open spec fn select_kind_next(s: AppView, a: Action, st: AddView, row: u8) -> AppView {
    match a {
        Action::Up => s.with_mode(ModeView::Adding(AddView { kind_cursor: sat_dec(st.kind_cursor), ..st })),
        Action::Down => s.with_mode(ModeView::Adding(AddView { kind_cursor: inc_to(st.kind_cursor, 5), ..st })),
        Action::Enter => {
            let k = all_kinds()[st.kind_cursor as int];
            let st1 = if row == 0 {
                AddView { kind1: Some(k), val_draft: st.value1, ..st }
            } else {
                AddView { kind2: Some(k), val_draft: st.value2, ..st }
            };
            s.with_mode(ModeView::Adding(AddView {
                val_cursor: st1.val_draft.len() as usize,
                row_cursor: row as usize,
                focus: AddFocus::InputValue(row),
                ..st1
            }))
        },
        Action::Escape => s.with_mode(ModeView::Adding(AddView { focus: AddFocus::SelectRow, ..st })),
        _ => s.with_mode(ModeView::Adding(st)),
    }
}

/// Where the composer goes once row `row` holds the number typed.
pub open spec fn after_value(st: AddView, row: u8) -> AddView {
    let st1 = if row == 0 {
        AddView { value1: st.val_draft, ..st }
    } else {
        AddView { value2: st.val_draft, ..st }
    };
    let other = (1 - row) as u8;
    let other_kind = if other == 0 { st1.kind1 } else { st1.kind2 };
    let other_val = if other == 0 { st1.value1 } else { st1.value2 };
    if other_kind is None {
        AddView { kind_cursor: 0, row_cursor: other as usize, focus: AddFocus::SelectKind(other), ..st1 }
    } else if !holds_number(other_val) {
        AddView {
            val_draft: Seq::empty(),
            val_cursor: 0,
            row_cursor: other as usize,
            focus: AddFocus::InputValue(other),
            ..st1
        }
    } else {
        AddView { row_cursor: row as usize, focus: AddFocus::SelectRow, ..st1 }
    }
}

#[verifier::opaque]
pub open spec fn input_value_next(s: AppView, a: Action, st: AddView, row: u8) -> AppView {
    match edit_buffer(a, st.val_draft, st.val_cursor) {
        Some((b, c)) => s.with_mode(ModeView::Adding(AddView { val_draft: b, val_cursor: c, ..st })),
        None => match a {
            Action::Enter => if holds_number(st.val_draft) {
                s.with_mode(ModeView::Adding(after_value(st, row)))
            } else {
                s.with_mode(ModeView::Adding(st))
            },
            Action::Escape => s.with_mode(ModeView::Adding(AddView {
                row_cursor: row as usize,
                focus: AddFocus::SelectRow,
                ..st
            })),
            _ => s.with_mode(ModeView::Adding(st)),
        },
    }
}

pub open spec fn adding_next(s: AppView, a: Action, st: AddView) -> AppView {
    match st.focus {
        AddFocus::SelectRow => select_row_next(s, a, st),
        AddFocus::SelectKind(row) => select_kind_next(s, a, st, row),
        AddFocus::InputValue(row) => input_value_next(s, a, st, row),
    }
}

#[verifier::opaque]
pub open spec fn confirm_delete_next(s: AppView, a: Action, i: usize) -> AppView {
    match a {
        Action::Delete => {
            let u = s.push_undo();
            AppView { items: u.items.remove(i as int), dirty: true, mode: ModeView::List, ..u }.clamp_selected()
        },
        _ => s.with_mode(ModeView::List),
    }
}

#[verifier::opaque]
pub open spec fn quit_confirm_next(s: AppView, a: Action) -> AppView {
    match a {
        Action::Escape => AppView {
            mode: match s.prev_mode {
                Some(m) => m,
                None => ModeView::List,
            },
            prev_mode: None,
            ..s
        },
        _ => s.with_mode(ModeView::QuitConfirm),
    }
}

/// The state after `a`.
pub open spec fn next_state(s: AppView, a: Action) -> AppView {
    match a {
        Action::Quit => AppView { prev_mode: Some(s.mode), mode: ModeView::QuitConfirm, ..s },
        Action::QuitForce => AppView { should_quit: true, ..s },
        Action::QuitSave => AppView { should_quit: true, ..s },
        Action::Save => s,
        Action::Undo => if s.undo.len() > 0 {
            AppView { redo: s.redo.push(s.items), undo: s.undo.drop_last(), ..s }.restore(s.undo.last())
        } else {
            s
        },
        Action::Redo => if s.redo.len() > 0 {
            AppView { undo: s.undo.push(s.items), redo: s.redo.drop_last(), ..s }.restore(s.redo.last())
        } else {
            s
        },
        _ => match s.mode {
            ModeView::Home { cursor } => home_next(s, a, cursor),
            ModeView::List => list_next(s, a),
            ModeView::Stats { cursor } => stats_next(s, a, cursor),
            ModeView::EditStatValue { field_idx, buffer, cursor } => edit_stat_value_next(
                s,
                a,
                field_idx,
                buffer,
                cursor,
            ),
            ModeView::Edit { item_idx, option_idx } => edit_next(s, a, item_idx, option_idx),
            ModeView::EditKind { item_idx, option_idx, kind_cursor } => edit_kind_next(
                s,
                a,
                item_idx,
                option_idx,
                kind_cursor,
            ),
            ModeView::EditValue { item_idx, option_idx, buffer, cursor } => edit_value_next(
                s,
                a,
                item_idx,
                option_idx,
                buffer,
                cursor,
            ),
            ModeView::Adding(st) => adding_next(s, a, st),
            ModeView::ConfirmDelete { item_idx } => confirm_delete_next(s, a, item_idx),
            ModeView::QuitConfirm => quit_confirm_next(s, a),
        },
    }
}

/// The files that `a` asks to have written.
pub open spec fn save_request(s: AppView, a: Action) -> SaveRequest {
    match a {
        Action::Save => if s.mode is Stats || s.mode is EditStatValue {
            SaveRequest { items: false, stats: true }
        } else {
            SaveRequest { items: true, stats: false }
        },
        Action::QuitSave => SaveRequest { items: s.dirty, stats: s.stats_dirty },
        _ => SaveRequest { items: false, stats: false },
    }
}


// ---------------------------------------------------------------------------
// The editor
// ---------------------------------------------------------------------------

#[verifier::external_type_specification]
#[verifier::external_body]
pub struct ExInstant(std::time::Instant);

/// `Instant::now`: the current time. Nothing is stated of it.
#[verifier::external_body]
fn now() -> std::time::Instant {
    std::time::Instant::now()
}

/// `Instant::elapsed`: the time since `t`. It depends on the clock, so
/// nothing is stated of it.
#[verifier::external_body]
fn elapsed(t: &std::time::Instant) -> std::time::Duration {
    t.elapsed()
}

/// `Duration::as_millis`: a duration in whole milliseconds. A duration is
/// opaque here, so nothing is stated of the result.
#[verifier::external_body]
fn as_millis(d: &std::time::Duration) -> u128 {
    d.as_millis()
}

/// How long a notice stays on screen, in milliseconds.
pub const FLASH_MILLIS: u128 = 1500;

pub struct App {
    pub items: Vec<Item>,
    pub stats: BaseStats,
    pub mode: Mode,
    pub selected: usize,
    pub scroll_offset: usize,
    pub dirty: bool,
    pub stats_dirty: bool,
    pub flash: Option<(String, std::time::Instant)>,
    pub should_quit: bool,
    pub file_path: String,
    pub stats_path: String,
    pub prev_mode: Option<Mode>,
    pub undo_stack: Vec<Vec<Item>>,
    pub redo_stack: Vec<Vec<Item>>,
}

impl App {
    /// The mode that `Escape` returns to from the quit prompt.
    pub open spec fn prev_mode_view(&self) -> Option<ModeView> {
        match self.prev_mode {
            Some(m) => Some(m@),
            None => None,
        }
    }

    /// The item lists that `Undo` brings back, most recent last.
    pub open spec fn undo_view(&self) -> Seq<Seq<Item>> {
        self.undo_stack@.map_values(|v: Vec<Item>| v@)
    }

    /// The item lists that `Redo` brings back, most recent last.
    pub open spec fn redo_view(&self) -> Seq<Seq<Item>> {
        self.redo_stack@.map_values(|v: Vec<Item>| v@)
    }

    /// The message of the notice on screen, if any.
    pub open spec fn flash_text(&self) -> Option<Seq<char>> {
        match self.flash {
            Some((m, _)) => Some(m@),
            None => None,
        }
    }
}

impl App {
    /// The invariant the editor keeps: the state invariant, and texts that
    /// fit in a `String`.
    pub open spec fn inv(&self) -> bool {
        &&& self@.wf()
        &&& mode_fits(self@.mode)
        &&& match self@.prev_mode {
            Some(m) => mode_fits(m),
            None => true,
        }
    }
}

impl View for App {
    type V = AppView;

    open spec fn view(&self) -> AppView {
        AppView {
            items: self.items@,
            stats: self.stats,
            mode: self.mode@,
            selected: self.selected,
            scroll_offset: self.scroll_offset,
            dirty: self.dirty,
            stats_dirty: self.stats_dirty,
            should_quit: self.should_quit,
            file_path: self.file_path@,
            stats_path: self.stats_path@,
            prev_mode: self.prev_mode_view(),
            undo: self.undo_view(),
            redo: self.redo_view(),
            flash: self.flash_text(),
        }
    }
}

/// No file to write.
fn no_save() -> (r: SaveRequest)
    ensures
        r == (SaveRequest { items: false, stats: false }),
{
    SaveRequest { items: false, stats: false }
}

/// A copy of a list of items.
fn copy_items(v: &Vec<Item>) -> (r: Vec<Item>)
    ensures
        r@ == v@,
{
    let mut r: Vec<Item> = Vec::new();
    let mut i: usize = 0;
    while i < v.len()
        invariant
            i <= v@.len(),
            r@ == v@.subrange(0, i as int),
        decreases v@.len() - i,
    {
        r.push(v[i]);
        i = i + 1;
        assert(r@ =~= v@.subrange(0, i as int));
    }
    assert(v@.subrange(0, v@.len() as int) =~= v@);
    r
}

impl AddState {
    pub fn new() -> (st: Self)
        ensures
            st@ == fresh_add(),
    {
        AddState {
            kind1: None,
            value1: String::new(),
            kind2: None,
            value2: String::new(),
            val_draft: String::new(),
            focus: AddFocus::SelectKind(0),
            row_cursor: 0,
            kind_cursor: 0,
            val_cursor: 0,
        }
    }

    pub fn both_complete(&self) -> (b: bool)
        ensures
            b == add_complete(self@),
    {
        self.kind1.is_some() && parse_i32(self.value1.as_str()).is_some()
            && !self.value1.as_str().is_empty() && self.kind2.is_some() && parse_i32(
            self.value2.as_str(),
        ).is_some() && !self.value2.as_str().is_empty()
    }
}

impl App {
    pub fn new(items: Vec<Item>, file_path: String, stats: BaseStats, stats_path: String) -> (app:
        Self)
        ensures
            app@ == (AppView {
                items: items@,
                stats,
                mode: ModeView::Home { cursor: 0 },
                selected: 0,
                scroll_offset: 0,
                dirty: false,
                stats_dirty: false,
                should_quit: false,
                file_path: file_path@,
                stats_path: stats_path@,
                prev_mode: None,
                undo: Seq::empty(),
                redo: Seq::empty(),
                flash: None,
            }),
            app.flash is None,
            app.inv(),
    {
        let app = App {
            items,
            stats,
            mode: Mode::Home { cursor: 0 },
            selected: 0,
            scroll_offset: 0,
            dirty: false,
            stats_dirty: false,
            flash: None,
            should_quit: false,
            file_path,
            stats_path,
            prev_mode: None,
            undo_stack: Vec::new(),
            redo_stack: Vec::new(),
        };
        assert(app.undo_view() =~= Seq::empty());
        assert(app.redo_view() =~= Seq::empty());
        app
    }

    pub fn is_any_dirty(&self) -> (b: bool)
        ensures
            b == (self.dirty || self.stats_dirty),
    {
        self.dirty || self.stats_dirty
    }

    /// Clears the notice once it has been shown for longer than
    /// `FLASH_MILLIS`, given how long ago it was raised.
    pub fn expire_flash(&mut self, elapsed_ms: u128)
        ensures
            final(self)@ == (AppView {
                flash: if old(self).flash is Some && elapsed_ms > FLASH_MILLIS {
                    None
                } else {
                    old(self)@.flash
                },
                ..old(self)@
            }),
            final(self).flash == (if old(self).flash is Some && elapsed_ms > FLASH_MILLIS {
                None
            } else {
                old(self).flash
            }),
    {
        if self.flash.is_some() && elapsed_ms > FLASH_MILLIS {
            self.flash = None;
        }
    }

    /// Clears the notice once it has been on screen long enough. How long it
    /// has been shown comes from the clock, so only this is stated: the
    /// notice either stays as it was or is cleared.
    pub fn tick(&mut self)
        ensures
            final(self)@ == (AppView { flash: final(self)@.flash, ..old(self)@ }),
            final(self).flash is None || final(self).flash == old(self).flash,
    {
        let shown_ms = match &self.flash {
            Some((_, t)) => as_millis(&elapsed(t)),
            None => 0,
        };
        self.expire_flash(shown_ms);
    }
}


/// Applies a cursor or buffer action to a value buffer.
fn edit_buffer_exec(a: Action, buf: String, cur: usize) -> (r: (String, usize))
    requires
        edit_buffer(a, buf@, cur) is Some,
        buffer_ok(buf@, cur),
        fits(buf@),
    ensures
        edit_buffer(a, buf@, cur) == Some((r.0@, r.1)),
        buffer_ok(r.0@, r.1),
        fits(r.0@),
{
    match a {
        Action::Left => {
            let c = if cur > 0 {
                cur - 1
            } else {
                0
            };
            (buf, c)
        },
        Action::Right => {
            let n = ascii_len(&buf);
            let c = if cur + 1 <= n {
                cur + 1
            } else {
                n
            };
            (buf, c)
        },
        Action::InputChar(ch) => {
            let minus_first = starts_with_char(&buf, '-');
            if (ch == '-' && cur == 0 && !minus_first) || is_ascii_digit(ch) {
                let mut b = buf;
                string_insert(&mut b, cur, ch);
                proof {
                    assert(all_ascii(b@)) by {
                        assert forall|i: int| 0 <= i < b@.len() implies '\0' <= #[trigger] b@[i]
                            <= '\u{7f}' by {
                            if i < cur {
                                assert(b@[i] == buf@[i]);
                            } else if i > cur {
                                assert(b@[i] == buf@[i - 1]);
                            }
                        }
                    }
                }
                (b, cur + 1)
            } else {
                (buf, cur)
            }
        },
        Action::Backspace => {
            if cur > 0 {
                let mut b = buf;
                string_remove(&mut b, cur - 1);
                proof {
                    assert(all_ascii(b@)) by {
                        assert forall|i: int| 0 <= i < b@.len() implies '\0' <= #[trigger] b@[i]
                            <= '\u{7f}' by {
                            if i < cur - 1 {
                                assert(b@[i] == buf@[i]);
                            } else {
                                assert(b@[i] == buf@[i + 1]);
                            }
                        }
                    }
                }
                (b, cur - 1)
            } else {
                (buf, cur)
            }
        },
        _ => (buf, cur),
    }
}

impl App {
    fn handle_home(&mut self, action: Action, cursor: usize)
        requires
            action is Down ==> cursor < usize::MAX,
        ensures
            final(self)@ == home_next(old(self)@.with_mode(ModeView::Home { cursor }), action, cursor),
            final(self).flash == old(self).flash,
            mode_fits(final(self)@.mode),
            final(self)@.prev_mode == old(self)@.prev_mode,
    {
        reveal(home_next);
        match action {
            Action::Up => {
                self.mode = Mode::Home {
                    cursor: if cursor > 0 {
                        cursor - 1
                    } else {
                        0
                    },
                };
            },
            Action::Down => {
                self.mode = Mode::Home {
                    cursor: if cursor + 1 <= 1 {
                        cursor + 1
                    } else {
                        1
                    },
                };
            },
            Action::Enter => {
                if cursor == 0 {
                    self.mode = Mode::Stats { cursor: 0 };
                } else {
                    self.mode = Mode::List;
                }
            },
            _ => {
                self.mode = Mode::Home { cursor };
            },
        }
    }

    fn handle_stats(&mut self, action: Action, cursor: usize)
        requires
            action is Down ==> cursor < usize::MAX,
        ensures
            final(self)@ == stats_next(old(self)@.with_mode(ModeView::Stats { cursor }), action, cursor),
            final(self).flash == old(self).flash,
            mode_fits(final(self)@.mode),
            final(self)@.prev_mode == old(self)@.prev_mode,
    {
        reveal(stats_next);
        match action {
            Action::Up => {
                self.mode = Mode::Stats {
                    cursor: if cursor > 0 {
                        cursor - 1
                    } else {
                        0
                    },
                };
            },
            Action::Down => {
                self.mode = Mode::Stats {
                    cursor: if cursor + 1 <= FIELD_COUNT - 1 {
                        cursor + 1
                    } else {
                        FIELD_COUNT - 1
                    },
                };
            },
            Action::Enter => {
                let buf = format_i32(self.stats.get(cursor));
                let cur = ascii_len(&buf);
                self.mode = Mode::EditStatValue { field_idx: cursor, buffer: buf, cursor: cur };
            },
            Action::Escape => {
                self.mode = Mode::Home { cursor: 0 };
            },
            _ => {
                self.mode = Mode::Stats { cursor };
            },
        }
    }

    fn handle_edit_stat_value(&mut self, action: Action, field_idx: usize, buffer: String, cursor: usize)
        requires
            buffer_ok(buffer@, cursor),
            fits(buffer@),
        ensures
            final(self)@ == edit_stat_value_next(
                old(self)@.with_mode(ModeView::EditStatValue { field_idx, buffer: buffer@, cursor }),
                action,
                field_idx,
                buffer@,
                cursor,
            ),
            final(self).flash == old(self).flash,
            mode_fits(final(self)@.mode),
            final(self)@.prev_mode == old(self)@.prev_mode,
    {
        reveal(edit_stat_value_next);
        match action {
            Action::Left | Action::Right | Action::InputChar(_) | Action::Backspace => {
                let (b, c) = edit_buffer_exec(action, buffer, cursor);
                self.mode = Mode::EditStatValue { field_idx, buffer: b, cursor: c };
            },
            Action::Enter => {
                match parse_i32(buffer.as_str()) {
                    Some(val) => {
                        self.stats.set(field_idx, val);
                        self.stats_dirty = true;
                    },
                    None => {},
                }
                self.mode = Mode::Stats { cursor: field_idx };
            },
            Action::Escape => {
                self.mode = Mode::Stats { cursor: field_idx };
            },
            _ => {
                self.mode = Mode::EditStatValue { field_idx, buffer, cursor };
            },
        }
    }

    fn handle_list(&mut self, action: Action)
        requires
            old(self).items@.len() > 0 ==> old(self).selected < old(self).items@.len(),
        ensures
            final(self)@ == list_next(old(self)@.with_mode(ModeView::List), action),
            final(self).flash == old(self).flash,
            mode_fits(final(self)@.mode),
            final(self)@.prev_mode == old(self)@.prev_mode,
    {
        reveal(list_next);
        let n = self.items.len();
        if action == Action::Up && self.selected > 0 {
            self.selected = self.selected - 1;
            self.mode = Mode::List;
        } else if action == Action::Down && n > 0 && self.selected + 1 < n {
            self.selected = self.selected + 1;
            self.mode = Mode::List;
        } else if (action == Action::Enter || action == Action::Right) && n > 0 {
            self.mode = Mode::Edit { item_idx: self.selected, option_idx: 0 };
        } else if action == Action::AddItem {
            self.mode = Mode::Adding(AddState::new());
        } else if action == Action::Delete && n > 0 {
            self.mode = Mode::ConfirmDelete { item_idx: self.selected };
        } else if action == Action::Escape {
            self.mode = Mode::Home { cursor: 1 };
        } else {
            self.mode = Mode::List;
        }
    }
}


fn item_with_kind_exec(it: Item, o: usize, k: OptionKind) -> (r: Item)
    ensures
        r == item_with_kind(it, o, k),
{
    if o == 0 {
        Item { options: [ItemOption { kind: k, value: it.options[0].value }, it.options[1]] }
    } else {
        Item { options: [it.options[0], ItemOption { kind: k, value: it.options[1].value }] }
    }
}

fn item_with_value_exec(it: Item, o: usize, v: i32) -> (r: Item)
    ensures
        r == item_with_value(it, o, v),
{
    if o == 0 {
        Item { options: [ItemOption { kind: it.options[0].kind, value: v }, it.options[1]] }
    } else {
        Item { options: [it.options[0], ItemOption { kind: it.options[1].kind, value: v }] }
    }
}

impl App {
    fn push_undo(&mut self)
        ensures
            final(self)@ == old(self)@.push_undo(),
            final(self).flash == old(self).flash,
    {
        let snap = copy_items(&self.items);
        self.undo_stack.push(snap);
        self.redo_stack.clear();
        assert(self.undo_view() =~= old(self).undo_view().push(old(self).items@));
        assert(self.redo_view() =~= Seq::<Seq<Item>>::empty());
    }

    fn clamp_selected(&mut self)
        ensures
            final(self)@ == old(self)@.clamp_selected(),
            final(self).flash == old(self).flash,
    {
        if self.items.len() == 0 {
            self.selected = 0;
        } else if self.selected > self.items.len() - 1 {
            self.selected = self.items.len() - 1;
        }
    }

    fn do_undo(&mut self)
        requires
            mode_fits(old(self)@.mode),
        ensures
            final(self)@ == next_state(old(self)@, Action::Undo),
            final(self).flash == old(self).flash,
            mode_fits(final(self)@.mode),
            final(self)@.prev_mode == old(self)@.prev_mode,
    {
        match self.undo_stack.pop() {
            Some(prev) => {
                let mut items = prev;
                std::mem::swap(&mut items, &mut self.items);
                self.redo_stack.push(items);
                self.dirty = true;
                self.mode = Mode::List;
                assert(self.undo_view() =~= old(self).undo_view().drop_last());
                assert(self.redo_view() =~= old(self).redo_view().push(old(self).items@));
                self.clamp_selected();
            },
            None => {
                assert(old(self).undo_view().len() == 0);
            },
        }
    }

    fn do_redo(&mut self)
        requires
            mode_fits(old(self)@.mode),
        ensures
            final(self)@ == next_state(old(self)@, Action::Redo),
            final(self).flash == old(self).flash,
            mode_fits(final(self)@.mode),
            final(self)@.prev_mode == old(self)@.prev_mode,
    {
        match self.redo_stack.pop() {
            Some(next) => {
                let mut items = next;
                std::mem::swap(&mut items, &mut self.items);
                self.undo_stack.push(items);
                self.dirty = true;
                self.mode = Mode::List;
                assert(self.redo_view() =~= old(self).redo_view().drop_last());
                assert(self.undo_view() =~= old(self).undo_view().push(old(self).items@));
                self.clamp_selected();
            },
            None => {
                assert(old(self).redo_view().len() == 0);
            },
        }
    }

    fn handle_edit(&mut self, action: Action, item_idx: usize, option_idx: usize)
        requires
            item_idx < old(self).items@.len(),
            option_idx < 2,
        ensures
            final(self)@ == edit_next(
                old(self)@.with_mode(ModeView::Edit { item_idx, option_idx }),
                action,
                item_idx,
                option_idx,
            ),
            final(self).flash == old(self).flash,
            mode_fits(final(self)@.mode),
            final(self)@.prev_mode == old(self)@.prev_mode,
    {
        reveal(edit_next);
        match action {
            Action::Left => {
                self.mode = Mode::Edit { item_idx, option_idx: 0 };
            },
            Action::Right => {
                self.mode = Mode::Edit { item_idx, option_idx: 1 };
            },
            Action::Up => {
                self.selected = if item_idx > 0 {
                    item_idx - 1
                } else {
                    0
                };
                self.mode = Mode::List;
            },
            Action::Down => {
                let last = self.items.len() - 1;
                self.selected = if item_idx + 1 <= last {
                    item_idx + 1
                } else {
                    last
                };
                self.mode = Mode::List;
            },
            Action::EditKind => {
                let kind_cursor = self.items[item_idx].options[option_idx].kind.index_in_all();
                self.mode = Mode::EditKind { item_idx, option_idx, kind_cursor };
            },
            Action::Enter | Action::EditValue => {
                let buf = format_i32(self.items[item_idx].options[option_idx].value);
                let cursor = ascii_len(&buf);
                self.mode = Mode::EditValue { item_idx, option_idx, buffer: buf, cursor };
            },
            Action::Escape => {
                self.selected = item_idx;
                self.mode = Mode::List;
            },
            _ => {
                self.mode = Mode::Edit { item_idx, option_idx };
            },
        }
    }

    fn handle_edit_kind(&mut self, action: Action, item_idx: usize, option_idx: usize, kind_cursor: usize)
        requires
            item_idx < old(self).items@.len(),
            option_idx < 2,
            kind_cursor < 6,
        ensures
            final(self)@ == edit_kind_next(
                old(self)@.with_mode(ModeView::EditKind { item_idx, option_idx, kind_cursor }),
                action,
                item_idx,
                option_idx,
                kind_cursor,
            ),
            final(self).flash == old(self).flash,
            mode_fits(final(self)@.mode),
            final(self)@.prev_mode == old(self)@.prev_mode,
    {
        reveal(edit_kind_next);
        match action {
            Action::Up => {
                self.mode = Mode::EditKind {
                    item_idx,
                    option_idx,
                    kind_cursor: if kind_cursor > 0 {
                        kind_cursor - 1
                    } else {
                        0
                    },
                };
            },
            Action::Down => {
                self.mode = Mode::EditKind {
                    item_idx,
                    option_idx,
                    kind_cursor: if kind_cursor + 1 <= 5 {
                        kind_cursor + 1
                    } else {
                        5
                    },
                };
            },
            Action::Enter => {
                let new_kind = OptionKind::ALL[kind_cursor];
                let it = self.items[item_idx];
                if new_kind != it.options[option_idx].kind {
                    self.push_undo();
                    self.items.set(item_idx, item_with_kind_exec(it, option_idx, new_kind));
                    self.dirty = true;
                }
                self.mode = Mode::Edit { item_idx, option_idx };
            },
            Action::Escape => {
                self.mode = Mode::Edit { item_idx, option_idx };
            },
            _ => {
                self.mode = Mode::EditKind { item_idx, option_idx, kind_cursor };
            },
        }
    }

    fn handle_edit_value(
        &mut self,
        action: Action,
        item_idx: usize,
        option_idx: usize,
        buffer: String,
        cursor: usize,
    )
        requires
            item_idx < old(self).items@.len(),
            option_idx < 2,
            buffer_ok(buffer@, cursor),
            fits(buffer@),
        ensures
            final(self)@ == edit_value_next(
                old(self)@.with_mode(
                    ModeView::EditValue { item_idx, option_idx, buffer: buffer@, cursor },
                ),
                action,
                item_idx,
                option_idx,
                buffer@,
                cursor,
            ),
            final(self).flash == old(self).flash,
            mode_fits(final(self)@.mode),
            final(self)@.prev_mode == old(self)@.prev_mode,
    {
        reveal(edit_value_next);
        match action {
            Action::Left | Action::Right | Action::InputChar(_) | Action::Backspace => {
                let (b, c) = edit_buffer_exec(action, buffer, cursor);
                self.mode = Mode::EditValue { item_idx, option_idx, buffer: b, cursor: c };
            },
            Action::Enter => {
                let it = self.items[item_idx];
                match parse_i32(buffer.as_str()) {
                    Some(val) => {
                        if val != it.options[option_idx].value {
                            self.push_undo();
                            self.items.set(item_idx, item_with_value_exec(it, option_idx, val));
                            self.dirty = true;
                        }
                    },
                    None => {},
                }
                self.mode = Mode::Edit { item_idx, option_idx };
            },
            Action::Escape => {
                self.mode = Mode::Edit { item_idx, option_idx };
            },
            _ => {
                self.mode = Mode::EditValue { item_idx, option_idx, buffer, cursor };
            },
        }
    }

    fn handle_confirm_delete(&mut self, action: Action, item_idx: usize)
        requires
            item_idx < old(self).items@.len(),
        ensures
            final(self)@ == confirm_delete_next(
                old(self)@.with_mode(ModeView::ConfirmDelete { item_idx }),
                action,
                item_idx,
            ),
            final(self).flash == old(self).flash,
            mode_fits(final(self)@.mode),
            final(self)@.prev_mode == old(self)@.prev_mode,
    {
        reveal(confirm_delete_next);
        match action {
            Action::Delete => {
                self.push_undo();
                self.items.remove(item_idx);
                self.dirty = true;
                self.mode = Mode::List;
                self.clamp_selected();
            },
            _ => {
                self.mode = Mode::List;
            },
        }
    }

    fn handle_quit(&mut self)
        ensures
            final(self)@ == next_state(old(self)@, Action::Quit),
            final(self).flash == old(self).flash,
            mode_fits(final(self)@.mode),
    {
        let mut m = Mode::QuitConfirm;
        std::mem::swap(&mut m, &mut self.mode);
        self.prev_mode = Some(m);
    }

    fn handle_quit_confirm(&mut self, action: Action)
        requires
            match old(self)@.prev_mode {
                Some(m) => mode_fits(m),
                None => true,
            },
        ensures
            final(self)@ == quit_confirm_next(old(self)@.with_mode(ModeView::QuitConfirm), action),
            final(self).flash == old(self).flash,
            mode_fits(final(self)@.mode),
            final(self)@.prev_mode is None || final(self)@.prev_mode == old(self)@.prev_mode,
    {
        reveal(quit_confirm_next);
        match action {
            Action::Escape => {
                let p = self.prev_mode.take();
                self.mode = match p {
                    Some(m) => m,
                    None => Mode::List,
                };
            },
            _ => {
                self.mode = Mode::QuitConfirm;
            },
        }
    }
}


/// Opens the kind list for the composer's current row.
fn open_kind_pick_exec(state: AddState) -> (r: AddState)
    requires
        add_ok(state@),
    ensures
        r@ == open_kind_pick(state@),
        add_ok(r@),
        mode_fits(ModeView::Adding(state@)) ==> mode_fits(ModeView::Adding(r@)),
{
    let mut state = state;
    let row = state.row_cursor as u8;
    let row_kind = if row == 0 {
        state.kind1
    } else {
        state.kind2
    };
    state.kind_cursor = match row_kind {
        Some(k) => k.index_in_all(),
        None => 0,
    };
    state.focus = AddFocus::SelectKind(row);
    state
}

impl App {
    fn handle_adding(&mut self, action: Action, state: AddState)
        requires
            add_ok(state@),
            mode_fits(ModeView::Adding(state@)),
        ensures
            final(self)@ == adding_next(old(self)@.with_mode(ModeView::Adding(state@)), action, state@),
            final(self).flash == old(self).flash,
            mode_fits(final(self)@.mode),
            final(self)@.prev_mode == old(self)@.prev_mode,
    {
        match state.focus {
            AddFocus::SelectRow => self.handle_select_row(action, state),
            AddFocus::SelectKind(row) => self.handle_select_kind(action, state, row),
            AddFocus::InputValue(row) => self.handle_input_value(action, state, row),
        }
    }

    fn handle_select_row(&mut self, action: Action, state: AddState)
        requires
            add_ok(state@),
            mode_fits(ModeView::Adding(state@)),
            state.focus == AddFocus::SelectRow,
        ensures
            final(self)@ == select_row_next(old(self)@.with_mode(ModeView::Adding(state@)), action, state@),
            final(self).flash == old(self).flash,
            mode_fits(final(self)@.mode),
            final(self)@.prev_mode == old(self)@.prev_mode,
    {
        reveal(select_row_next);
        let mut state = state;
        match action {
            Action::Up => {
                state.row_cursor = if state.row_cursor > 0 {
                    state.row_cursor - 1
                } else {
                    0
                };
                self.mode = Mode::Adding(state);
            },
            Action::Down => {
                state.row_cursor = if state.row_cursor + 1 <= 1 {
                    state.row_cursor + 1
                } else {
                    1
                };
                self.mode = Mode::Adding(state);
            },
            Action::EditKind => {
                self.mode = Mode::Adding(open_kind_pick_exec(state));
            },
            Action::EditValue => {
                let row = state.row_cursor as u8;
                let has_kind = if row == 0 {
                    state.kind1.is_some()
                } else {
                    state.kind2.is_some()
                };
                if has_kind {
                    let val = if row == 0 {
                        state.value1.clone()
                    } else {
                        state.value2.clone()
                    };
                    state.val_cursor = ascii_len(&val);
                    state.val_draft = val;
                    state.focus = AddFocus::InputValue(row);
                }
                self.mode = Mode::Adding(state);
            },
            Action::Confirm | Action::Enter => {
                if state.both_complete() {
                    self.push_undo();
                    let v1 = parse_i32(state.value1.as_str()).unwrap();
                    let v2 = parse_i32(state.value2.as_str()).unwrap();
                    let k1 = state.kind1.unwrap();
                    let k2 = state.kind2.unwrap();
                    self.items.push(
                        Item {
                            options: [
                                ItemOption { kind: k1, value: v1 },
                                ItemOption { kind: k2, value: v2 },
                            ],
                        },
                    );
                    self.selected = self.items.len() - 1;
                    self.dirty = true;
                    self.mode = Mode::List;
                } else if action == Action::Enter {
                    self.mode = Mode::Adding(open_kind_pick_exec(state));
                } else {
                    self.mode = Mode::Adding(state);
                }
            },
            Action::Escape => {
                self.mode = Mode::List;
            },
            _ => {
                self.mode = Mode::Adding(state);
            },
        }
    }

    fn handle_select_kind(&mut self, action: Action, state: AddState, row: u8)
        requires
            add_ok(state@),
            mode_fits(ModeView::Adding(state@)),
            state.focus == AddFocus::SelectKind(row),
        ensures
            final(self)@ == select_kind_next(old(self)@.with_mode(ModeView::Adding(state@)), action, state@, row),
            final(self).flash == old(self).flash,
            mode_fits(final(self)@.mode),
            final(self)@.prev_mode == old(self)@.prev_mode,
    {
        reveal(select_kind_next);
        let mut state = state;
        match action {
            Action::Up => {
                state.kind_cursor = if state.kind_cursor > 0 {
                    state.kind_cursor - 1
                } else {
                    0
                };
                self.mode = Mode::Adding(state);
            },
            Action::Down => {
                state.kind_cursor = if state.kind_cursor + 1 <= 5 {
                    state.kind_cursor + 1
                } else {
                    5
                };
                self.mode = Mode::Adding(state);
            },
            Action::Enter => {
                let kind = OptionKind::ALL[state.kind_cursor];
                if row == 0 {
                    state.kind1 = Some(kind);
                    state.val_draft = state.value1.clone();
                } else {
                    state.kind2 = Some(kind);
                    state.val_draft = state.value2.clone();
                }
                state.val_cursor = ascii_len(&state.val_draft);
                state.row_cursor = row as usize;
                state.focus = AddFocus::InputValue(row);
                self.mode = Mode::Adding(state);
            },
            Action::Escape => {
                state.focus = AddFocus::SelectRow;
                self.mode = Mode::Adding(state);
            },
            _ => {
                self.mode = Mode::Adding(state);
            },
        }
    }

    fn handle_input_value(&mut self, action: Action, state: AddState, row: u8)
        requires
            add_ok(state@),
            mode_fits(ModeView::Adding(state@)),
            state.focus == AddFocus::InputValue(row),
        ensures
            final(self)@ == input_value_next(old(self)@.with_mode(ModeView::Adding(state@)), action, state@, row),
            final(self).flash == old(self).flash,
            mode_fits(final(self)@.mode),
            final(self)@.prev_mode == old(self)@.prev_mode,
    {
        reveal(input_value_next);
        let mut state = state;
        match action {
            Action::Left | Action::Right | Action::InputChar(_) | Action::Backspace => {
                let mut draft = String::new();
                std::mem::swap(&mut draft, &mut state.val_draft);
                let (b, c) = edit_buffer_exec(action, draft, state.val_cursor);
                state.val_draft = b;
                state.val_cursor = c;
                self.mode = Mode::Adding(state);
            },
            Action::Enter => {
                let valid = !state.val_draft.as_str().is_empty() && parse_i32(
                    state.val_draft.as_str(),
                ).is_some();
                if valid {
                    if row == 0 {
                        state.value1 = state.val_draft.clone();
                    } else {
                        state.value2 = state.val_draft.clone();
                    }
                    let other: u8 = 1 - row;
                    let other_kind = if other == 0 {
                        state.kind1
                    } else {
                        state.kind2
                    };
                    let other_has_value = if other == 0 {
                        !state.value1.as_str().is_empty() && parse_i32(
                            state.value1.as_str(),
                        ).is_some()
                    } else {
                        !state.value2.as_str().is_empty() && parse_i32(
                            state.value2.as_str(),
                        ).is_some()
                    };
                    if other_kind.is_none() {
                        state.kind_cursor = 0;
                        state.row_cursor = other as usize;
                        state.focus = AddFocus::SelectKind(other);
                    } else if !other_has_value {
                        state.val_draft = String::new();
                        state.val_cursor = 0;
                        state.row_cursor = other as usize;
                        state.focus = AddFocus::InputValue(other);
                    } else {
                        state.row_cursor = row as usize;
                        state.focus = AddFocus::SelectRow;
                    }
                }
                self.mode = Mode::Adding(state);
            },
            Action::Escape => {
                state.row_cursor = row as usize;
                state.focus = AddFocus::SelectRow;
                self.mode = Mode::Adding(state);
            },
            _ => {
                self.mode = Mode::Adding(state);
            },
        }
    }
}


/// Cursor and buffer edits keep a buffer workable.
pub proof fn lemma_edit_buffer_ok(a: Action, buf: Seq<char>, cur: usize)
    requires
        buffer_ok(buf, cur),
        edit_buffer(a, buf, cur) is Some,
    ensures
        buffer_ok(edit_buffer(a, buf, cur).unwrap().0, edit_buffer(a, buf, cur).unwrap().1),
{
    match a {
        Action::InputChar(c) => {
            if accepts_char(c, cur, buf) {
                let b = buf.insert(cur as int, c);
                assert forall|i: int| 0 <= i < b.len() implies '\0' <= #[trigger] b[i] <= '\u{7f}' by {
                    if i < cur {
                        assert(b[i] == buf[i]);
                    } else if i > cur {
                        assert(b[i] == buf[i - 1]);
                    }
                }
            }
        },
        Action::Backspace => {
            if cur > 0 {
                let b = buf.remove(cur - 1);
                assert forall|i: int| 0 <= i < b.len() implies '\0' <= #[trigger] b[i] <= '\u{7f}' by {
                    if i < cur - 1 {
                        assert(b[i] == buf[i]);
                    } else {
                        assert(b[i] == buf[i + 1]);
                    }
                }
            }
        },
        _ => {},
    }
}

proof fn lemma_restore_wf(s: AppView, items: Seq<Item>)
    ensures
        s.restore(items).wf(),
{
}

proof fn lemma_global_wf(s: AppView, a: Action)
    requires
        s.wf(),
        a is Quit || a is QuitForce || a is QuitSave || a is Save || a is Undo || a is Redo,
    ensures
        next_state(s, a).wf(),
{
    match a {
        Action::Undo => {
            if s.undo.len() > 0 {
                let t = AppView { redo: s.redo.push(s.items), undo: s.undo.drop_last(), ..s };
                lemma_restore_wf(t, s.undo.last());
            }
        },
        Action::Redo => {
            if s.redo.len() > 0 {
                let t = AppView { undo: s.undo.push(s.items), redo: s.redo.drop_last(), ..s };
                lemma_restore_wf(t, s.redo.last());
            }
        },
        _ => {},
    }
}

proof fn lemma_home_wf(s: AppView, a: Action, cursor: usize)
    requires
        s.wf(),
        s.mode == (ModeView::Home { cursor }),
    ensures
        home_next(s, a, cursor).wf(),
{
    reveal(home_next);
}

proof fn lemma_list_wf(s: AppView, a: Action)
    requires
        s.wf(),
        s.mode == ModeView::List,
    ensures
        list_next(s, a).wf(),
{
    reveal(list_next);
}

proof fn lemma_stats_wf(s: AppView, a: Action, cursor: usize)
    requires
        s.wf(),
        s.mode == (ModeView::Stats { cursor }),
    ensures
        stats_next(s, a, cursor).wf(),
{
    reveal(stats_next);
    crate::text::lemma_parse_int_decimal(s.stats.field(cursor as int));
}

proof fn lemma_edit_stat_value_wf(s: AppView, a: Action, field_idx: usize, buffer: Seq<char>, cursor: usize)
    requires
        s.wf(),
        s.mode == (ModeView::EditStatValue { field_idx, buffer, cursor }),
    ensures
        edit_stat_value_next(s, a, field_idx, buffer, cursor).wf(),
{
    reveal(edit_stat_value_next);
    if edit_buffer(a, buffer, cursor) is Some {
        lemma_edit_buffer_ok(a, buffer, cursor);
    }
}

proof fn lemma_edit_wf(s: AppView, a: Action, item_idx: usize, option_idx: usize)
    requires
        s.wf(),
        s.mode == (ModeView::Edit { item_idx, option_idx }),
    ensures
        edit_next(s, a, item_idx, option_idx).wf(),
{
    reveal(edit_next);
    crate::text::lemma_parse_int_decimal(s.items[item_idx as int].options[option_idx as int].value);
}

proof fn lemma_edit_kind_wf(s: AppView, a: Action, item_idx: usize, option_idx: usize, kind_cursor: usize)
    requires
        s.wf(),
        s.mode == (ModeView::EditKind { item_idx, option_idx, kind_cursor }),
    ensures
        edit_kind_next(s, a, item_idx, option_idx, kind_cursor).wf(),
{
    reveal(edit_kind_next);
}

proof fn lemma_edit_value_wf(s: AppView, a: Action, item_idx: usize, option_idx: usize, buffer: Seq<char>, cursor: usize)
    requires
        s.wf(),
        s.mode == (ModeView::EditValue { item_idx, option_idx, buffer, cursor }),
    ensures
        edit_value_next(s, a, item_idx, option_idx, buffer, cursor).wf(),
{
    reveal(edit_value_next);
    if edit_buffer(a, buffer, cursor) is Some {
        lemma_edit_buffer_ok(a, buffer, cursor);
    }
}

proof fn lemma_select_row_wf(s: AppView, a: Action, st: AddView)
    requires
        s.wf(),
        s.mode == ModeView::Adding(st),
        st.focus == AddFocus::SelectRow,
    ensures
        select_row_next(s, a, st).wf(),
{
    reveal(select_row_next);
}

proof fn lemma_select_kind_wf(s: AppView, a: Action, st: AddView, row: u8)
    requires
        s.wf(),
        s.mode == ModeView::Adding(st),
        st.focus == AddFocus::SelectKind(row),
    ensures
        select_kind_next(s, a, st, row).wf(),
{
    reveal(select_kind_next);
}

proof fn lemma_input_value_wf(s: AppView, a: Action, st: AddView, row: u8)
    requires
        s.wf(),
        s.mode == ModeView::Adding(st),
        st.focus == AddFocus::InputValue(row),
    ensures
        input_value_next(s, a, st, row).wf(),
{
    reveal(input_value_next);
    if edit_buffer(a, st.val_draft, st.val_cursor) is Some {
        lemma_edit_buffer_ok(a, st.val_draft, st.val_cursor);
    }
}

proof fn lemma_confirm_delete_wf(s: AppView, a: Action, item_idx: usize)
    requires
        s.wf(),
        s.mode == (ModeView::ConfirmDelete { item_idx }),
    ensures
        confirm_delete_next(s, a, item_idx).wf(),
{
    reveal(confirm_delete_next);
}

proof fn lemma_quit_confirm_wf(s: AppView, a: Action)
    requires
        s.wf(),
        s.mode == ModeView::QuitConfirm,
    ensures
        quit_confirm_next(s, a).wf(),
{
    reveal(quit_confirm_next);
}

proof fn lemma_mode_wf(s: AppView, a: Action)
    requires
        s.wf(),
        !(a is Quit || a is QuitForce || a is QuitSave || a is Save || a is Undo || a is Redo),
    ensures
        next_state(s, a).wf(),
{
    match s.mode {
        ModeView::Home { cursor } => lemma_home_wf(s, a, cursor),
        ModeView::List => lemma_list_wf(s, a),
        ModeView::Stats { cursor } => lemma_stats_wf(s, a, cursor),
        ModeView::EditStatValue { field_idx, buffer, cursor } => lemma_edit_stat_value_wf(
            s,
            a,
            field_idx,
            buffer,
            cursor,
        ),
        ModeView::Edit { item_idx, option_idx } => lemma_edit_wf(s, a, item_idx, option_idx),
        ModeView::EditKind { item_idx, option_idx, kind_cursor } => lemma_edit_kind_wf(
            s,
            a,
            item_idx,
            option_idx,
            kind_cursor,
        ),
        ModeView::EditValue { item_idx, option_idx, buffer, cursor } => lemma_edit_value_wf(
            s,
            a,
            item_idx,
            option_idx,
            buffer,
            cursor,
        ),
        ModeView::Adding(st) => match st.focus {
            AddFocus::SelectRow => lemma_select_row_wf(s, a, st),
            AddFocus::SelectKind(row) => lemma_select_kind_wf(s, a, st, row),
            AddFocus::InputValue(row) => lemma_input_value_wf(s, a, st, row),
        },
        ModeView::ConfirmDelete { item_idx } => lemma_confirm_delete_wf(s, a, item_idx),
        ModeView::QuitConfirm => lemma_quit_confirm_wf(s, a),
    }
}

/// Every action keeps the state invariant.
pub proof fn lemma_next_state_wf(s: AppView, a: Action)
    requires
        s.wf(),
    ensures
        next_state(s, a).wf(),
{
    if a is Quit || a is QuitForce || a is QuitSave || a is Save || a is Undo || a is Redo {
        lemma_global_wf(s, a);
    } else {
        lemma_mode_wf(s, a);
    }
}

impl App {
    /// Carries out one action. Saving is not done here: the returned
    /// request names the files to write.
    pub fn apply(&mut self, action: Action) -> (req: SaveRequest)
        requires
            old(self).inv(),
            step_fits(old(self)@, action),
        ensures
            final(self)@ == next_state(old(self)@, action),
            req == save_request(old(self)@, action),
            final(self).flash == old(self).flash,
            final(self).inv(),
    {
        proof {
            lemma_next_state_wf(self@, action);
        }
        match action {
            Action::Quit => {
                self.handle_quit();
                no_save()
            },
            Action::QuitForce => {
                self.should_quit = true;
                no_save()
            },
            Action::QuitSave => {
                let req = SaveRequest { items: self.dirty, stats: self.stats_dirty };
                self.should_quit = true;
                req
            },
            Action::Save => {
                match &self.mode {
                    Mode::Stats { .. } | Mode::EditStatValue { .. } => SaveRequest {
                        items: false,
                        stats: true,
                    },
                    _ => SaveRequest { items: true, stats: false },
                }
            },
            Action::Undo => {
                self.do_undo();
                no_save()
            },
            Action::Redo => {
                self.do_redo();
                no_save()
            },
            _ => {
                let mut mode = Mode::List;
                std::mem::swap(&mut mode, &mut self.mode);
                match mode {
                    Mode::Home { cursor } => self.handle_home(action, cursor),
                    Mode::List => self.handle_list(action),
                    Mode::Stats { cursor } => self.handle_stats(action, cursor),
                    Mode::EditStatValue { field_idx, buffer, cursor } => {
                        self.handle_edit_stat_value(action, field_idx, buffer, cursor)
                    },
                    Mode::Edit { item_idx, option_idx } => {
                        self.handle_edit(action, item_idx, option_idx)
                    },
                    Mode::EditKind { item_idx, option_idx, kind_cursor } => {
                        self.handle_edit_kind(action, item_idx, option_idx, kind_cursor)
                    },
                    Mode::EditValue { item_idx, option_idx, buffer, cursor } => {
                        self.handle_edit_value(action, item_idx, option_idx, buffer, cursor)
                    },
                    Mode::Adding(state) => self.handle_adding(action, state),
                    Mode::ConfirmDelete { item_idx } => {
                        self.handle_confirm_delete(action, item_idx)
                    },
                    Mode::QuitConfirm => self.handle_quit_confirm(action),
                }
                no_save()
            },
        }
    }
}


/// The notice shown once a save has finished.
pub open spec fn save_notice(outcome: Result<(), Seq<char>>) -> Seq<char> {
    match outcome {
        Ok(_) => "✓ 저장됨"@,
        Err(e) => "저장 실패: "@ + e,
    }
}

/// The outcome of a save, with the error message as characters.
pub open spec fn outcome_view(outcome: Result<(), String>) -> Result<(), Seq<char>> {
    match outcome {
        Ok(_) => Ok(()),
        Err(e) => Err(e@),
    }
}

fn notice_for(outcome: Result<(), String>) -> (m: String)
    ensures
        m@ == save_notice(outcome_view(outcome)),
{
    match outcome {
        Ok(_) => String::from_str("✓ 저장됨"),
        Err(e) => {
            let mut m = String::from_str("저장 실패: ");
            m.append(e.as_str());
            m
        },
    }
}

impl App {
    /// Records the outcome of writing the items: a success marks them saved;
    /// either way a notice is raised.
    pub fn items_saved(&mut self, outcome: Result<(), String>)
        ensures
            final(self)@ == (AppView {
                dirty: if outcome is Ok {
                    false
                } else {
                    old(self)@.dirty
                },
                flash: Some(save_notice(outcome_view(outcome))),
                ..old(self)@
            }),
            final(self).flash_text() == Some(save_notice(outcome_view(outcome))),
            old(self).inv() ==> final(self).inv(),
    {
        if outcome.is_ok() {
            self.dirty = false;
        }
        let msg = notice_for(outcome);
        self.flash = Some((msg, now()));
    }

    /// Records the outcome of writing the stats: a success marks them saved;
    /// either way a notice is raised.
    pub fn stats_saved(&mut self, outcome: Result<(), String>)
        ensures
            final(self)@ == (AppView {
                stats_dirty: if outcome is Ok {
                    false
                } else {
                    old(self)@.stats_dirty
                },
                flash: Some(save_notice(outcome_view(outcome))),
                ..old(self)@
            }),
            final(self).flash_text() == Some(save_notice(outcome_view(outcome))),
            old(self).inv() ==> final(self).inv(),
    {
        if outcome.is_ok() {
            self.stats_dirty = false;
        }
        let msg = notice_for(outcome);
        self.flash = Some((msg, now()));
    }
}


/// Whether a text is ASCII and fits in a `String`.
fn text_checks(t: &String) -> (b: bool)
    ensures
        b == (all_ascii(t@) && fits(t@)),
{
    let s = t.as_str();
    let n = s.unicode_len();
    if n > isize::MAX as usize {
        return false;
    }
    let mut i: usize = 0;
    while i < n
        invariant
            n == s@.len(),
            s@ == t@,
            i <= n,
            forall|j: int| 0 <= j < i ==> '\0' <= #[trigger] s@[j] <= '\u{7f}',
        decreases n - i,
    {
        let c = s.get_char(i);
        if (c as u32) > 127 {
            return false;
        }
        i = i + 1;
    }
    true
}

fn add_checks(st: &AddState) -> (b: bool)
    ensures
        b == (add_ok(st@) && mode_fits(ModeView::Adding(st@))),
{
    let focus_ok = match st.focus {
        AddFocus::SelectRow => true,
        AddFocus::SelectKind(r) => r <= 1,
        AddFocus::InputValue(r) => r <= 1,
    };
    if !(focus_ok && st.row_cursor <= 1 && st.kind_cursor < 6) {
        return false;
    }
    if !(text_checks(&st.val_draft) && text_checks(&st.value1) && text_checks(&st.value2)) {
        return false;
    }
    st.val_cursor <= ascii_len(&st.val_draft)
}

fn text_fits_check(t: &String) -> (b: bool)
    ensures
        b == fits(t@),
{
    t.as_str().unicode_len() <= isize::MAX as usize
}

fn mode_fits_check(m: &Mode) -> (b: bool)
    ensures
        b == mode_fits(m@),
{
    match m {
        Mode::EditStatValue { buffer, .. } => text_fits_check(buffer),
        Mode::EditValue { buffer, .. } => text_fits_check(buffer),
        Mode::Adding(st) => text_fits_check(&st.val_draft) && text_fits_check(&st.value1)
            && text_fits_check(&st.value2),
        _ => true,
    }
}

fn mode_checks(m: &Mode, n: usize) -> (b: bool)
    ensures
        b == (mode_ok(m@, n as nat) && mode_fits(m@)),
{
    match m {
        Mode::Home { .. } => true,
        Mode::List => true,
        Mode::Stats { .. } => true,
        Mode::EditStatValue { buffer, cursor, .. } => text_checks(buffer) && *cursor <= ascii_len(
            buffer,
        ),
        Mode::Edit { item_idx, option_idx } => *item_idx < n && *option_idx < 2,
        Mode::EditKind { item_idx, option_idx, kind_cursor } => *item_idx < n && *option_idx < 2
            && *kind_cursor < 6,
        Mode::EditValue { item_idx, option_idx, buffer, cursor } => *item_idx < n && *option_idx
            < 2 && text_checks(buffer) && *cursor <= ascii_len(buffer),
        Mode::Adding(st) => add_checks(st),
        Mode::ConfirmDelete { item_idx } => *item_idx < n,
        Mode::QuitConfirm => true,
    }
}

impl App {
    /// Whether `action` keeps every cursor within `usize`, as `apply` needs.
    pub fn action_fits(&self, action: Action) -> (b: bool)
        ensures
            b == step_fits(self@, action),
    {
        match &self.mode {
            Mode::Home { cursor } => action != Action::Down || *cursor < usize::MAX,
            Mode::Stats { cursor } => action != Action::Down || *cursor < usize::MAX,
            _ => true,
        }
    }

    /// Whether the state meets the invariant that `apply` needs.
    pub fn is_consistent(&self) -> (b: bool)
        ensures
            b == self.inv(),
    {
        let n = self.items.len();
        if n > 0 && self.selected >= n {
            return false;
        }
        if !mode_checks(&self.mode, n) {
            return false;
        }
        let in_prompt = match self.mode {
            Mode::QuitConfirm => true,
            _ => false,
        };
        match &self.prev_mode {
            Some(m) => if in_prompt {
                mode_checks(m, n)
            } else {
                mode_fits_check(m)
            },
            None => true,
        }
    }
}

} // verus!
