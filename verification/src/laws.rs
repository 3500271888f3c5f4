//! Properties of the editor that span several actions.

use vstd::prelude::*;

use crate::app::{
    confirm_delete_next, edit_kind_next, edit_next, edit_stat_value_next, edit_value_next,
    home_next, input_value_next, list_next, next_state, quit_confirm_next, select_kind_next,
    select_row_next, stats_next, add_complete, add_composed, composed_item, sat_dec, inc_to, Action, AddFocus, AppView, ModeView,
};
use crate::app::{item_with_kind, item_with_value, save_request};
use crate::event::{Key, KeyCode, key_action};
use crate::item::{Item, ItemOption, OptionKind};
use crate::optimizer::{crit_total, item_crit, kind_total};
use crate::stats::BaseStats;
use crate::text::parse_i32_spec;

verus! {

/// What an action may do to the items and the undo history: either it
/// leaves the items, the history and the saved flag alone, or it records the
/// items for undo, forgets what could be redone, changes the items and
/// marks them unsaved — and then it is `Enter`, `Confirm` or `Delete`.
pub open spec fn effects_ok(s: AppView, t: AppView, a: Action) -> bool {
    ||| t.items == s.items && t.undo == s.undo && t.redo == s.redo && t.dirty == s.dirty
    ||| t.undo == s.undo.push(s.items) && t.redo == Seq::<Seq<Item>>::empty() && t.dirty
        && (a is Enter || a is Confirm || a is Delete)
}

/// Actions that work on the mode (all but the quit, save, undo and redo
/// actions).
pub open spec fn mode_action(a: Action) -> bool {
    !(a is Quit || a is QuitForce || a is QuitSave || a is Save || a is Undo || a is Redo)
}

proof fn lemma_effects(s: AppView, a: Action)
    requires
        s.wf(),
        mode_action(a),
    ensures
        effects_ok(s, next_state(s, a), a),
{
    match s.mode {
        ModeView::Home { cursor } => {
            reveal(home_next);
        },
        ModeView::List => {
            reveal(list_next);
        },
        ModeView::Stats { cursor } => {
            reveal(stats_next);
        },
        ModeView::EditStatValue { field_idx, buffer, cursor } => {
            reveal(edit_stat_value_next);
        },
        ModeView::Edit { item_idx, option_idx } => {
            reveal(edit_next);
        },
        ModeView::EditKind { item_idx, option_idx, kind_cursor } => {
            reveal(edit_kind_next);
        },
        ModeView::EditValue { item_idx, option_idx, buffer, cursor } => {
            reveal(edit_value_next);
        },
        ModeView::Adding(st) => match st.focus {
            AddFocus::SelectRow => {
                reveal(select_row_next);
            },
            AddFocus::SelectKind(row) => {
                reveal(select_kind_next);
            },
            AddFocus::InputValue(row) => {
                reveal(input_value_next);
            },
        },
        ModeView::ConfirmDelete { item_idx } => {
            reveal(confirm_delete_next);
        },
        ModeView::QuitConfirm => {
            reveal(quit_confirm_next);
        },
    }
}

/// Every change to the items is recorded for undo, forgets what could be
/// redone and marks the items unsaved; apart from undo and redo, only
/// `Enter`, `Confirm` and `Delete` change the items.
pub proof fn law_changes_are_recorded(s: AppView, a: Action)
    requires
        s.wf(),
        !(a is Undo || a is Redo),
        next_state(s, a).items != s.items,
    ensures
        next_state(s, a).undo == s.undo.push(s.items),
        next_state(s, a).redo == Seq::<Seq<Item>>::empty(),
        next_state(s, a).dirty,
        a is Enter || a is Confirm || a is Delete,
{
    if mode_action(a) {
        lemma_effects(s, a);
    }
}

/// `Escape` never changes the items, the undo history or the saved flag.
pub proof fn law_escape_changes_nothing(s: AppView)
    requires
        s.wf(),
    ensures
        next_state(s, Action::Escape).items == s.items,
        next_state(s, Action::Escape).dirty == s.dirty,
        next_state(s, Action::Escape).undo == s.undo,
        next_state(s, Action::Escape).redo == s.redo,
{
    lemma_effects(s, Action::Escape);
}

/// Undo right after an action that recorded the items brings those items
/// back.
pub proof fn law_undo_reverts(s: AppView, a: Action)
    requires
        s.wf(),
        next_state(s, a).undo.len() == s.undo.len() + 1,
    ensures
        next_state(next_state(s, a), Action::Undo).items == s.items,
{
    if mode_action(a) {
        lemma_effects(s, a);
    }
}

/// Redo right after an undo brings back the items the undo replaced.
pub proof fn law_redo_after_undo(s: AppView)
    requires
        s.wf(),
        s.undo.len() > 0,
    ensures
        next_state(next_state(s, Action::Undo), Action::Redo).items == s.items,
        next_state(next_state(s, Action::Undo), Action::Redo).undo == s.undo.drop_last().push(
            s.undo.last(),
        ),
        next_state(next_state(s, Action::Undo), Action::Redo).dirty,
        next_state(next_state(s, Action::Undo), Action::Redo).mode == ModeView::List,
        next_state(next_state(s, Action::Undo), Action::Redo).stats == s.stats,
{
}

/// `Quit` always opens the quit prompt, and `Escape` there returns to the
/// mode the editor was in, with nothing else changed but the remembered
/// mode.
pub proof fn law_quit_then_escape(s: AppView)
    requires
        s.wf(),
    ensures
        next_state(s, Action::Quit).mode == ModeView::QuitConfirm,
        next_state(next_state(s, Action::Quit), Action::Escape) == (AppView {
            prev_mode: None,
            ..s
        }),
{
    reveal(quit_confirm_next);
}

/// Opening an option's value for editing and confirming it untouched
/// changes nothing but the mode's round trip: the items, the history and
/// the saved flag stay as they were, and the editor is back where it began.
pub proof fn law_untouched_value_edit(s: AppView, i: usize, o: usize)
    requires
        s.wf(),
        s.mode == (ModeView::Edit { item_idx: i, option_idx: o }),
    ensures
        next_state(next_state(s, Action::EditValue), Action::Enter) == s,
{
    reveal(edit_next);
    reveal(edit_value_next);
    let v = s.items[i as int].options[o as int].value;
    crate::text::lemma_parse_int_decimal(v);
}

/// Opening a stat for editing and confirming it untouched keeps every stat
/// value (the stats are marked unsaved all the same).
pub proof fn law_untouched_stat_edit(s: AppView, c: usize)
    requires
        s.wf(),
        s.mode == (ModeView::Stats { cursor: c }),
    ensures
        next_state(next_state(s, Action::Enter), Action::Enter).stats == s.stats,
        next_state(next_state(s, Action::Enter), Action::Enter).mode == s.mode,
        next_state(next_state(s, Action::Enter), Action::Enter).items == s.items,
{
    reveal(stats_next);
    reveal(edit_stat_value_next);
    let v = s.stats.field(c as int);
    crate::text::lemma_parse_int_decimal(v);
    crate::stats::lemma_get_after_set(s.stats, c as int, v, c as int);
    assert(s.stats.with_field(c as int, v) == s.stats);
}

/// Deleting takes two presses: in the list, `Delete` only asks for
/// confirmation of the selected item; confirming removes exactly that item.
pub proof fn law_delete_needs_confirmation(s: AppView)
    requires
        s.wf(),
        s.mode == ModeView::List,
        s.items.len() > 0,
    ensures
        next_state(s, Action::Delete).items == s.items,
        next_state(s, Action::Delete).mode == (ModeView::ConfirmDelete { item_idx: s.selected }),
        next_state(next_state(s, Action::Delete), Action::Delete).items == s.items.remove(
            s.selected as int,
        ),
{
    reveal(list_next);
    reveal(confirm_delete_next);
}

/// What one action may do while an item is being composed: either it
/// leaves the items, selection, stats, saved flags and history alone and
/// stays in the composer or returns to the list; or it is `Enter` or
/// `Confirm` on a finished composer, which appends the composed item.
pub open spec fn composing_step_ok(s: AppView, t: AppView, a: Action) -> bool {
    match s.mode {
        ModeView::Adding(st) => {
            ||| t.items == s.items && t.dirty == s.dirty && t.selected == s.selected && t.stats
                == s.stats && t.stats_dirty == s.stats_dirty && t.undo == s.undo && t.redo
                == s.redo && (t.mode is Adding || t.mode is List)
            ||| (a is Enter || a is Confirm) && st.focus == AddFocus::SelectRow && add_complete(st)
                && t == add_composed(s, st)
        },
        _ => true,
    }
}

/// While an item is being composed, nothing but finishing it (`Enter` or
/// `Confirm` once both rows hold a kind and a number) changes the items,
/// and every step stays in the composer or returns to the list.
pub proof fn law_composing_keeps_items(s: AppView, a: Action)
    requires
        s.wf(),
        s.mode is Adding,
        mode_action(a),
    ensures
        composing_step_ok(s, next_state(s, a), a),
{
    reveal(select_row_next);
    reveal(select_kind_next);
    reveal(input_value_next);
}

/// Undo with nothing recorded changes nothing.
pub proof fn law_undo_without_history(s: AppView)
    requires
        s.undo.len() == 0,
    ensures
        next_state(s, Action::Undo) == s,
{
}

/// Redo with nothing undone changes nothing.
pub proof fn law_redo_without_history(s: AppView)
    requires
        s.redo.len() == 0,
    ensures
        next_state(s, Action::Redo) == s,
{
}

/// `Enter` on a finished composer (both rows hold a kind and a number)
/// appends the composed item, selects it, records the old items for undo,
/// marks the items unsaved and returns to the list.
pub proof fn law_enter_finishes_item(s: AppView)
    requires
        s.wf(),
        s.mode is Adding,
        s.mode->Adding_0.focus == AddFocus::SelectRow,
        add_complete(s.mode->Adding_0),
    ensures
        next_state(s, Action::Enter).items == s.items.push(composed_item(s.mode->Adding_0)),
        next_state(s, Action::Enter).selected == s.items.len() as usize,
        next_state(s, Action::Enter).dirty,
        next_state(s, Action::Enter).mode == ModeView::List,
        next_state(s, Action::Enter).undo == s.undo.push(s.items),
        next_state(s, Action::Enter).stats == s.stats,
{
    reveal(select_row_next);
}

/// While an option is being chosen, left and right pick the first and the
/// second option of the item; up and down return to the list with the
/// item above or below selected; none of them changes the items.
pub proof fn law_edit_arrows(s: AppView, i: usize, o: usize)
    requires
        s.wf(),
        s.mode == (ModeView::Edit { item_idx: i, option_idx: o }),
    ensures
        next_state(s, Action::Left).mode == (ModeView::Edit { item_idx: i, option_idx: 0 }),
        next_state(s, Action::Right).mode == (ModeView::Edit { item_idx: i, option_idx: 1 }),
        next_state(s, Action::Up).mode == ModeView::List,
        next_state(s, Action::Up).selected == sat_dec(i),
        next_state(s, Action::Down).mode == ModeView::List,
        next_state(s, Action::Down).selected == inc_to(i, s.items.len() - 1),
        next_state(s, Action::Left).items == s.items,
        next_state(s, Action::Right).items == s.items,
        next_state(s, Action::Up).items == s.items,
        next_state(s, Action::Down).items == s.items,
        next_state(s, Action::Up).dirty == s.dirty,
        next_state(s, Action::Down).dirty == s.dirty,
{
    reveal(edit_next);
}

// ---------------------------------------------------------------------------
// Critical rate
// ---------------------------------------------------------------------------

/// An item with its two options the other way round.
pub open spec fn swapped(it: Item) -> Item {
    Item { options: [it.options[1], it.options[0]] }
}

/// The critical rate that items add is the same sum the strength totals
/// take of the `CritRate` options: every such option of every item counts.
pub proof fn law_crit_total_sums_crit_options(items: Seq<Item>)
    ensures
        crit_total(items) == kind_total(items, OptionKind::CritRate),
    decreases items.len(),
{
    if items.len() > 0 {
        law_crit_total_sums_crit_options(items.drop_last());
    }
}

/// Where an option sits in its item does not matter: swapping the two
/// options of any one item leaves the critical rate unchanged.
pub proof fn law_crit_total_ignores_slot(items: Seq<Item>, j: int)
    requires
        0 <= j < items.len(),
    ensures
        crit_total(items.update(j, swapped(items[j]))) == crit_total(items),
    decreases items.len(),
{
    let t = items.update(j, swapped(items[j]));
    if j < items.len() - 1 {
        assert(t.drop_last() =~= items.drop_last().update(j, swapped(items[j])));
        law_crit_total_ignores_slot(items.drop_last(), j);
    } else {
        assert(t.drop_last() =~= items.drop_last());
    }
}

/// An item whose one `CritRate` option holds `v` adds exactly `v`, in
/// either slot, and an item without one adds nothing.
pub proof fn law_crit_option_counts(v: i32, other: ItemOption)
    requires
        other.kind != OptionKind::CritRate,
    ensures
        crit_total(seq![Item { options: [ItemOption { kind: OptionKind::CritRate, value: v }, other] }])
            == v,
        crit_total(seq![Item { options: [other, ItemOption { kind: OptionKind::CritRate, value: v }] }])
            == v,
        crit_total(seq![Item { options: [other, other] }]) == 0,
{
    let a = seq![Item { options: [ItemOption { kind: OptionKind::CritRate, value: v }, other] }];
    let b = seq![Item { options: [other, ItemOption { kind: OptionKind::CritRate, value: v }] }];
    let c = seq![Item { options: [other, other] }];
    let cr = ItemOption { kind: OptionKind::CritRate, value: v };
    let ia = Item { options: [cr, other] };
    let ib = Item { options: [other, cr] };
    assert(ia.options[0] == cr && ia.options[1] == other);
    assert(ib.options[0] == other && ib.options[1] == cr);
    assert(a.last() == ia);
    assert(b.last() == ib);
    assert(a.drop_last() =~= Seq::<Item>::empty());
    assert(b.drop_last() =~= Seq::<Item>::empty());
    assert(c.drop_last() =~= Seq::<Item>::empty());
    assert(crit_total(a.drop_last()) == 0);
    assert(item_crit(ia) == v);
    assert(crit_total(a) == v);
    assert(crit_total(b.drop_last()) == 0);
    assert(item_crit(ib) == v);
    assert(crit_total(b) == v);
}

// ---------------------------------------------------------------------------
// Editing an option
// ---------------------------------------------------------------------------

/// Setting option `o`'s value changes that option's value and nothing else
/// of the item: its kind and the other option stay.
pub proof fn law_item_with_value(it: Item, o: usize, v: i32)
    requires
        o < 2,
    ensures
        item_with_value(it, o, v).options[o as int].value == v,
        item_with_value(it, o, v).options[o as int].kind == it.options[o as int].kind,
        item_with_value(it, o, v).options[1 - o] == it.options[1 - o],
{
}

/// Setting option `o`'s kind changes that option's kind and nothing else of
/// the item: its value and the other option stay.
pub proof fn law_item_with_kind(it: Item, o: usize, k: OptionKind)
    requires
        o < 2,
    ensures
        item_with_kind(it, o, k).options[o as int].kind == k,
        item_with_kind(it, o, k).options[o as int].value == it.options[o as int].value,
        item_with_kind(it, o, k).options[1 - o] == it.options[1 - o],
{
}

/// Confirming a typed number while editing option `o` of item `i` gives
/// that option the number, keeps its kind, and leaves the item's other
/// option and every other item as they were.
pub proof fn law_value_edit_sets_option(s: AppView, i: usize, o: usize, buf: Seq<char>, c: usize)
    requires
        s.wf(),
        s.mode == (ModeView::EditValue { item_idx: i, option_idx: o, buffer: buf, cursor: c }),
        parse_i32_spec(buf) is Some,
    ensures
        next_state(s, Action::Enter).items.len() == s.items.len(),
        next_state(s, Action::Enter).items[i as int].options[o as int].value == parse_i32_spec(
            buf,
        )->0,
        next_state(s, Action::Enter).items[i as int].options[o as int].kind == s.items[i as int].options[o as int].kind,
        next_state(s, Action::Enter).items[i as int].options[1 - o] == s.items[i as int].options[1
            - o],
        forall|j: int|
            0 <= j < s.items.len() && j != i ==> next_state(s, Action::Enter).items[j] == s.items[j],
        next_state(s, Action::Enter).mode == (ModeView::Edit { item_idx: i, option_idx: o }),
{
    reveal(edit_value_next);
}

// ---------------------------------------------------------------------------
// Base stats
// ---------------------------------------------------------------------------

/// Field index `i` is the stat named by `FIELD_NAMES[i]`: magic (base),
/// magic (equipment), magic (crystals), critical rate, critical damage,
/// cooldown reduction, mastery; setting field `i` sets exactly that stat.
pub proof fn law_field_indices(s: BaseStats, v: i32)
    ensures
        s.field(0) == s.magic_base,
        s.field(1) == s.magic_equip,
        s.field(2) == s.magic_crystal,
        s.field(3) == s.crit_rate,
        s.field(4) == s.crit_damage,
        s.field(5) == s.cooldown_reduction,
        s.field(6) == s.mastery,
        s.with_field(0, v) == (BaseStats { magic_base: v, ..s }),
        s.with_field(1, v) == (BaseStats { magic_equip: v, ..s }),
        s.with_field(2, v) == (BaseStats { magic_crystal: v, ..s }),
        s.with_field(3, v) == (BaseStats { crit_rate: v, ..s }),
        s.with_field(4, v) == (BaseStats { crit_damage: v, ..s }),
        s.with_field(5, v) == (BaseStats { cooldown_reduction: v, ..s }),
        s.with_field(6, v) == (BaseStats { mastery: v, ..s }),
{
}

// ---------------------------------------------------------------------------
// Saving on quit
// ---------------------------------------------------------------------------

/// Quitting with save asks to write exactly the files with unsaved changes:
/// once the requested writes succeed, nothing is left unsaved, and no file
/// without changes is written.
pub proof fn law_quit_save_leaves_nothing_unsaved(s: AppView)
    ensures
        ({
            let t = next_state(s, Action::QuitSave);
            let r = save_request(s, Action::QuitSave);
            &&& t.should_quit
            &&& !(t.dirty && !r.items)
            &&& !(t.stats_dirty && !r.stats)
            &&& r.items ==> s.dirty
            &&& r.stats ==> s.stats_dirty
            &&& t.items == s.items
            &&& t.stats == s.stats
        }),
{
}

// ---------------------------------------------------------------------------
// Keys
// ---------------------------------------------------------------------------

/// Every key the list's hint line shows does what the hint says, whether
/// or not Ctrl is held: arrows move, Enter edits, `a` adds, `d` deletes,
/// `s` saves, `u` undoes and `q` quits.
pub proof fn law_list_hint_keys(ctrl: bool)
    ensures
        key_action(ModeView::List, Key { code: KeyCode::Up, ctrl }) == Some(Action::Up),
        key_action(ModeView::List, Key { code: KeyCode::Down, ctrl }) == Some(Action::Down),
        key_action(ModeView::List, Key { code: KeyCode::Enter, ctrl }) == Some(Action::Enter),
        key_action(ModeView::List, Key { code: KeyCode::Char('a'), ctrl }) == Some(Action::AddItem),
        key_action(ModeView::List, Key { code: KeyCode::Char('d'), ctrl }) == Some(Action::Delete),
        key_action(ModeView::List, Key { code: KeyCode::Char('s'), ctrl }) == Some(Action::Save),
        key_action(ModeView::List, Key { code: KeyCode::Char('u'), ctrl }) == Some(Action::Undo),
        key_action(ModeView::List, Key { code: KeyCode::Char('q'), ctrl }) == Some(Action::Quit),
{
}

/// In the list, pressing `a` (as the empty list tells the user to) opens
/// the item composer, without touching the items.
pub proof fn law_a_opens_composer(s: AppView, ctrl: bool)
    requires
        s.mode == ModeView::List,
    ensures
        key_action(s.mode, Key { code: KeyCode::Char('a'), ctrl }) is Some,
        next_state(s, key_action(s.mode, Key { code: KeyCode::Char('a'), ctrl })->0).mode is Adding,
        next_state(s, key_action(s.mode, Key { code: KeyCode::Char('a'), ctrl })->0).items
            == s.items,
{
    reveal(list_next);
}

/// The keys the other hint lines show do what they say: in an option, the
/// arrows, Enter and Esc; in the delete confirmation, `d` and Esc; in the
/// quit prompt, `s`, `q` and Esc; on the home and stats screens, the
/// arrows, Enter, Esc, `s` and `q`.
pub proof fn law_other_hint_keys(ctrl: bool, i: usize, o: usize, c: usize)
    ensures
        key_action(ModeView::Edit { item_idx: i, option_idx: o }, Key { code: KeyCode::Left, ctrl })
            == Some(Action::Left),
        key_action(ModeView::Edit { item_idx: i, option_idx: o }, Key { code: KeyCode::Right, ctrl })
            == Some(Action::Right),
        key_action(ModeView::Edit { item_idx: i, option_idx: o }, Key { code: KeyCode::Enter, ctrl })
            == Some(Action::Enter),
        key_action(ModeView::Edit { item_idx: i, option_idx: o }, Key { code: KeyCode::Up, ctrl })
            == Some(Action::Up),
        key_action(ModeView::Edit { item_idx: i, option_idx: o }, Key { code: KeyCode::Down, ctrl })
            == Some(Action::Down),
        key_action(ModeView::Edit { item_idx: i, option_idx: o }, Key { code: KeyCode::Esc, ctrl })
            == Some(Action::Escape),
        key_action(ModeView::ConfirmDelete { item_idx: i }, Key { code: KeyCode::Char('d'), ctrl })
            == Some(Action::Delete),
        key_action(ModeView::ConfirmDelete { item_idx: i }, Key { code: KeyCode::Esc, ctrl })
            == Some(Action::Escape),
        key_action(ModeView::QuitConfirm, Key { code: KeyCode::Char('s'), ctrl }) == Some(
            Action::QuitSave,
        ),
        key_action(ModeView::QuitConfirm, Key { code: KeyCode::Char('q'), ctrl }) == Some(
            Action::QuitForce,
        ),
        key_action(ModeView::QuitConfirm, Key { code: KeyCode::Esc, ctrl }) == Some(Action::Escape),
        key_action(ModeView::Home { cursor: c }, Key { code: KeyCode::Enter, ctrl }) == Some(
            Action::Enter,
        ),
        key_action(ModeView::Home { cursor: c }, Key { code: KeyCode::Char('q'), ctrl }) == Some(
            Action::Quit,
        ),
        key_action(ModeView::Stats { cursor: c }, Key { code: KeyCode::Enter, ctrl }) == Some(
            Action::Enter,
        ),
        key_action(ModeView::Stats { cursor: c }, Key { code: KeyCode::Char('s'), ctrl }) == Some(
            Action::Save,
        ),
        key_action(ModeView::Stats { cursor: c }, Key { code: KeyCode::Esc, ctrl }) == Some(
            Action::Escape,
        ),
        key_action(ModeView::Stats { cursor: c }, Key { code: KeyCode::Char('q'), ctrl }) == Some(
            Action::Quit,
        ),
{
}

} // verus!
