//! Key presses and the actions they stand for in each mode.

use vstd::prelude::*;

use crate::app::{Action, AddFocus, AddState, App, Mode, ModeView};
use crate::text::is_ascii_digit;

verus! {

/// The keys the editor reacts to.
#[derive(Debug, Clone, Copy, PartialEq, Eq, Structural)]
pub enum KeyCode {
    Up,
    Down,
    Left,
    Right,
    Enter,
    Esc,
    Backspace,
    Char(char),
    /// Any other key.
    Other,
}

/// A key press: the key, and whether Control was held.
#[derive(Debug, Clone, Copy, PartialEq, Eq, Structural)]
pub struct Key {
    pub code: KeyCode,
    pub ctrl: bool,
}

/// A character that a value buffer may take: a digit or a minus sign.
pub open spec fn is_value_char(c: char) -> bool {
    crate::text::is_digit(c) || c == '-'
}

pub open spec fn home_key(k: Key) -> Option<Action> {
    match k.code {
        KeyCode::Up | KeyCode::Char('k') => Some(Action::Up),
        KeyCode::Down | KeyCode::Char('j') => Some(Action::Down),
        KeyCode::Enter => Some(Action::Enter),
        KeyCode::Char('q') => Some(Action::Quit),
        _ => None,
    }
}

pub open spec fn stats_key(k: Key) -> Option<Action> {
    match k.code {
        KeyCode::Up | KeyCode::Char('k') => Some(Action::Up),
        KeyCode::Down | KeyCode::Char('j') => Some(Action::Down),
        KeyCode::Enter => Some(Action::Enter),
        KeyCode::Esc => Some(Action::Escape),
        KeyCode::Char('s') => Some(Action::Save),
        KeyCode::Char('q') => Some(Action::Quit),
        _ => None,
    }
}

pub open spec fn list_key(k: Key) -> Option<Action> {
    match k.code {
        KeyCode::Up | KeyCode::Char('k') => Some(Action::Up),
        KeyCode::Down | KeyCode::Char('j') => Some(Action::Down),
        KeyCode::Enter | KeyCode::Right | KeyCode::Char('l') => Some(Action::Enter),
        KeyCode::Char('a') => Some(Action::AddItem),
        KeyCode::Char('d') => Some(Action::Delete),
        KeyCode::Char('s') => Some(Action::Save),
        KeyCode::Char('q') => Some(Action::Quit),
        KeyCode::Char('u') => Some(Action::Undo),
        KeyCode::Char('r') => if k.ctrl {
            Some(Action::Redo)
        } else {
            None
        },
        KeyCode::Esc => Some(Action::Escape),
        _ => None,
    }
}

pub open spec fn edit_key(k: Key) -> Option<Action> {
    match k.code {
        KeyCode::Left | KeyCode::Char('h') => Some(Action::Left),
        KeyCode::Right | KeyCode::Char('l') => Some(Action::Right),
        KeyCode::Enter => Some(Action::Enter),
        KeyCode::Esc => Some(Action::Escape),
        KeyCode::Up | KeyCode::Char('k') => Some(Action::Up),
        KeyCode::Down | KeyCode::Char('j') => Some(Action::Down),
        _ => None,
    }
}

pub open spec fn value_key(k: Key) -> Option<Action> {
    match k.code {
        KeyCode::Left => Some(Action::Left),
        KeyCode::Right => Some(Action::Right),
        KeyCode::Char(c) => if is_value_char(c) {
            Some(Action::InputChar(c))
        } else {
            None
        },
        KeyCode::Backspace => Some(Action::Backspace),
        KeyCode::Enter => Some(Action::Enter),
        KeyCode::Esc => Some(Action::Escape),
        _ => None,
    }
}

/// Keys for picking from a list of kinds.
pub open spec fn pick_key(k: Key) -> Option<Action> {
    match k.code {
        KeyCode::Up | KeyCode::Char('k') => Some(Action::Up),
        KeyCode::Down | KeyCode::Char('j') => Some(Action::Down),
        KeyCode::Enter => Some(Action::Enter),
        KeyCode::Esc => Some(Action::Escape),
        _ => None,
    }
}

pub open spec fn confirm_delete_key(k: Key) -> Option<Action> {
    match k.code {
        KeyCode::Char('d') => Some(Action::Delete),
        _ => Some(Action::Escape),
    }
}

pub open spec fn quit_confirm_key(k: Key) -> Option<Action> {
    match k.code {
        KeyCode::Char('s') => Some(Action::QuitSave),
        KeyCode::Char('q') => Some(Action::QuitForce),
        KeyCode::Esc => Some(Action::Escape),
        _ => None,
    }
}

/// The action a key press stands for in mode `m`.
pub open spec fn key_action(m: ModeView, k: Key) -> Option<Action> {
    match m {
        ModeView::Home { .. } => home_key(k),
        ModeView::List => list_key(k),
        ModeView::Stats { .. } => stats_key(k),
        ModeView::EditStatValue { .. } => value_key(k),
        ModeView::Edit { .. } => edit_key(k),
        ModeView::EditKind { .. } => pick_key(k),
        ModeView::EditValue { .. } => value_key(k),
        ModeView::Adding(st) => match st.focus {
            AddFocus::InputValue(_) => value_key(k),
            _ => pick_key(k),
        },
        ModeView::ConfirmDelete { .. } => confirm_delete_key(k),
        ModeView::QuitConfirm => quit_confirm_key(k),
    }
}

fn home_action(key: Key) -> (r: Option<Action>)
    ensures
        r == home_key(key),
{
    match key.code {
        KeyCode::Up | KeyCode::Char('k') => Some(Action::Up),
        KeyCode::Down | KeyCode::Char('j') => Some(Action::Down),
        KeyCode::Enter => Some(Action::Enter),
        KeyCode::Char('q') => Some(Action::Quit),
        _ => None,
    }
}

fn stats_action(key: Key) -> (r: Option<Action>)
    ensures
        r == stats_key(key),
{
    match key.code {
        KeyCode::Up | KeyCode::Char('k') => Some(Action::Up),
        KeyCode::Down | KeyCode::Char('j') => Some(Action::Down),
        KeyCode::Enter => Some(Action::Enter),
        KeyCode::Esc => Some(Action::Escape),
        KeyCode::Char('s') => Some(Action::Save),
        KeyCode::Char('q') => Some(Action::Quit),
        _ => None,
    }
}

fn list_action(key: Key) -> (r: Option<Action>)
    ensures
        r == list_key(key),
{
    match key.code {
        KeyCode::Up | KeyCode::Char('k') => Some(Action::Up),
        KeyCode::Down | KeyCode::Char('j') => Some(Action::Down),
        KeyCode::Enter | KeyCode::Right | KeyCode::Char('l') => Some(Action::Enter),
        KeyCode::Char('a') => Some(Action::AddItem),
        KeyCode::Char('d') => Some(Action::Delete),
        KeyCode::Char('s') => Some(Action::Save),
        KeyCode::Char('q') => Some(Action::Quit),
        KeyCode::Char('u') => Some(Action::Undo),
        KeyCode::Char('r') if key.ctrl => Some(Action::Redo),
        KeyCode::Esc => Some(Action::Escape),
        _ => None,
    }
}

fn edit_action(key: Key) -> (r: Option<Action>)
    ensures
        r == edit_key(key),
{
    match key.code {
        KeyCode::Left | KeyCode::Char('h') => Some(Action::Left),
        KeyCode::Right | KeyCode::Char('l') => Some(Action::Right),
        KeyCode::Enter => Some(Action::Enter),
        KeyCode::Esc => Some(Action::Escape),
        KeyCode::Up | KeyCode::Char('k') => Some(Action::Up),
        KeyCode::Down | KeyCode::Char('j') => Some(Action::Down),
        _ => None,
    }
}

fn value_input_action(key: Key) -> (r: Option<Action>)
    ensures
        r == value_key(key),
{
    match key.code {
        KeyCode::Left => Some(Action::Left),
        KeyCode::Right => Some(Action::Right),
        KeyCode::Char(c) if is_ascii_digit(c) || c == '-' => Some(Action::InputChar(c)),
        KeyCode::Backspace => Some(Action::Backspace),
        KeyCode::Enter => Some(Action::Enter),
        KeyCode::Esc => Some(Action::Escape),
        _ => None,
    }
}

fn pick_action(key: Key) -> (r: Option<Action>)
    ensures
        r == pick_key(key),
{
    match key.code {
        KeyCode::Up | KeyCode::Char('k') => Some(Action::Up),
        KeyCode::Down | KeyCode::Char('j') => Some(Action::Down),
        KeyCode::Enter => Some(Action::Enter),
        KeyCode::Esc => Some(Action::Escape),
        _ => None,
    }
}

fn adding_action(key: Key, state: &AddState) -> (r: Option<Action>)
    ensures
        r == key_action(ModeView::Adding(state@), key),
{
    let is_input_focus = match state.focus {
        AddFocus::InputValue(_) => true,
        _ => false,
    };
    if is_input_focus {
        return value_input_action(key);
    }
    pick_action(key)
}

fn confirm_delete_action(key: Key) -> (r: Option<Action>)
    ensures
        r == confirm_delete_key(key),
{
    match key.code {
        KeyCode::Char('d') => Some(Action::Delete),
        _ => Some(Action::Escape),
    }
}

fn quit_confirm_action(key: Key) -> (r: Option<Action>)
    ensures
        r == quit_confirm_key(key),
{
    match key.code {
        KeyCode::Char('s') => Some(Action::QuitSave),
        KeyCode::Char('q') => Some(Action::QuitForce),
        KeyCode::Esc => Some(Action::Escape),
        _ => None,
    }
}

/// The action that a key press stands for in the editor's current mode.
pub fn key_to_action(app: &App, key: Key) -> (r: Option<Action>)
    ensures
        r == key_action(app.mode@, key),
{
    match &app.mode {
        Mode::Home { .. } => home_action(key),
        Mode::List => list_action(key),
        Mode::Stats { .. } => stats_action(key),
        Mode::EditStatValue { .. } => value_input_action(key),
        Mode::Edit { .. } => edit_action(key),
        Mode::EditKind { .. } => pick_action(key),
        Mode::EditValue { .. } => value_input_action(key),
        Mode::Adding(state) => adding_action(key, state),
        Mode::ConfirmDelete { .. } => confirm_delete_action(key),
        Mode::QuitConfirm => quit_confirm_action(key),
    }
}

} // verus!
