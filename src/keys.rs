//! The mapping from a key press to an action, by what is on screen.
use vstd::prelude::*;
use crate::state::{TanicAction, TanicUiState};

verus! {

/// A key press, as far as the application tells keys apart.
#[derive(Clone, Copy, Debug, PartialEq, Eq, Structural)]
pub enum Key {
    Char(char),
    Left,
    Right,
    Enter,
    Esc,
    Other,
}

/// The action a key stands for while `ui` is on screen: `q` exits anywhere;
/// the arrows move the focus and Enter opens, in the namespace list and in a
/// table list; Esc leaves a table list.
pub open spec fn key_action(ui: TanicUiState, key: Key) -> Option<TanicAction> {
    if key == Key::Char('q') {
        Some(TanicAction::Exit)
    } else {
        match ui {
            TanicUiState::ViewingNamespacesList(_) => match key {
                Key::Left => Some(TanicAction::FocusPrevNamespace),
                Key::Right => Some(TanicAction::FocusNextNamespace),
                Key::Enter => Some(TanicAction::SelectNamespace),
                _ => None,
            },
            TanicUiState::ViewingTablesList(_) => match key {
                Key::Left => Some(TanicAction::FocusPrevTable),
                Key::Right => Some(TanicAction::FocusNextTable),
                Key::Enter => Some(TanicAction::SelectTable),
                Key::Esc => Some(TanicAction::Escape),
                _ => None,
            },
            _ => None,
        }
    }
}

/// The action for a key press while `ui` is on screen, if the key means one.
pub fn on_key(ui: TanicUiState, key: Key) -> (r: Option<TanicAction>)
    ensures
        r == key_action(ui, key),
{
    if let Key::Char(c) = key {
        if c == 'q' {
            return Some(TanicAction::Exit);
        }
    }
    match ui {
        TanicUiState::ViewingNamespacesList(_) => match key {
            Key::Left => Some(TanicAction::FocusPrevNamespace),
            Key::Right => Some(TanicAction::FocusNextNamespace),
            Key::Enter => Some(TanicAction::SelectNamespace),
            _ => None,
        },
        TanicUiState::ViewingTablesList(_) => match key {
            Key::Left => Some(TanicAction::FocusPrevTable),
            Key::Right => Some(TanicAction::FocusNextTable),
            Key::Enter => Some(TanicAction::SelectTable),
            Key::Esc => Some(TanicAction::Escape),
            _ => None,
        },
        _ => None,
    }
}

} // verus!
