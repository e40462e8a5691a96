//! Keys and the actions they ask for.

use vstd::prelude::*;

verus! {

/// A key press, as the terminal reports it.
#[derive(Debug, Clone, Copy, PartialEq, Eq, Structural)]
pub enum Key {
    Backspace,
    Left,
    Right,
    Up,
    Down,
    Home,
    End,
    PageUp,
    PageDown,
    BackTab,
    Delete,
    Insert,
    /// A function key, by its number.
    F(u8),
    /// A character; Enter is the line feed.
    Char(char),
    /// A character with Alt held.
    Alt(char),
    /// A character with Ctrl held.
    Ctrl(char),
    Null,
    Esc,
    /// Any key that has no variant of its own.
    Other,
}

/// What the user asks the selector to do.
#[derive(Debug, Clone, Copy, PartialEq, Eq, Structural)]
pub enum Action {
    /// Delete the selected branch if it is merged.
    Delete,
    /// Delete the selected branch in any case.
    ForceDelete,
    /// Check the selected branch out and leave.
    Checkout,
    /// Leave.
    Quit,
    /// Move the cursor one row down.
    MoveDown,
    /// Move the cursor one row up.
    MoveUp,
    /// Nothing: the key has no meaning.
    NoOp,
}

/// The action bound to `key`. The down arrow, `j` and Ctrl-n move the
/// cursor down, the up arrow, `k` and Ctrl-p move it up; `d` and the Delete
/// key delete, `D` deletes by force; `c` and Enter check out; `q`, Esc and
/// Ctrl-c quit. Every other key asks for nothing.
pub open spec fn action_of(key: Key) -> Action {
    if key == Key::Down || key == Key::Ctrl('n') || key == Key::Char('j') {
        Action::MoveDown
    } else if key == Key::Up || key == Key::Ctrl('p') || key == Key::Char('k') {
        Action::MoveUp
    } else if key == Key::Esc || key == Key::Char('q') || key == Key::Ctrl('c') {
        Action::Quit
    } else if key == Key::Delete || key == Key::Char('d') {
        Action::Delete
    } else if key == Key::Char('D') {
        Action::ForceDelete
    } else if key == Key::Char('c') || key == Key::Char('\n') {
        Action::Checkout
    } else {
        Action::NoOp
    }
}

/// The action that a key press asks for.
pub fn key_to_action(key: Key) -> (action: Action)
    ensures
        action == action_of(key),
{
    match key {
        Key::Down | Key::Ctrl('n') | Key::Char('j') => Action::MoveDown,
        Key::Up | Key::Ctrl('p') | Key::Char('k') => Action::MoveUp,
        Key::Esc | Key::Char('q') | Key::Ctrl('c') => Action::Quit,
        Key::Delete | Key::Char('d') => Action::Delete,
        Key::Char('D') => Action::ForceDelete,
        Key::Char('c' | '\n') => Action::Checkout,
        _ => Action::NoOp,
    }
}

} // verus!
