//! Input modes, key presses, and the table that maps a key press to what the
//! browser does with it.

use vstd::prelude::*;

verus! {

/// The file operations the browser offers.
#[derive(Clone, Copy, Debug, PartialEq, Eq, Structural)]
pub enum OperationType {
    Add,
    Delete,
    Rename,
}

/// What key presses currently mean.
#[derive(Clone, Copy, Debug, PartialEq, Eq, Structural)]
pub enum InputMode {
    /// Keys move the cursor through the listing and start operations.
    Navigation,
    /// Reserved for typed commands; no key does anything here.
    Command,
    /// Keys edit the name that the operation will use.
    Operation(OperationType),
    /// The operation waits for a yes or a no.
    Confirmation(OperationType),
}

/// A key press, by its key code alone.
#[derive(Clone, Copy, Debug, PartialEq, Eq, Structural)]
pub enum Key {
    Char(char),
    Enter,
    Esc,
    Backspace,
    Delete,
    Left,
    Right,
    Up,
    Down,
    Home,
    End,
    /// Any key not named above.
    Other,
}

/// What a key press asks for.
#[derive(Clone, Copy, Debug, PartialEq, Eq, Structural)]
pub enum Action {
    NextItem,
    PreviousItem,
    EnterItem,
    ExitItem,
    AddFile,
    DeleteFile,
    RenameFile,
    NavigationInputMode,
    Enter,
    InputChar,
    CloseMessage,
    Quit,
    /// The key is ignored.
    Nothing,
}

/// The action of `key` while navigating; `hovering` says whether an entry is
/// under the cursor.
pub open spec fn navigation_action(hovering: bool, key: Key) -> Action {
    match key {
        Key::Char('j') | Key::Down => Action::NextItem,
        Key::Char('k') | Key::Up => Action::PreviousItem,
        Key::Char('l') | Key::Enter | Key::Right => Action::EnterItem,
        Key::Char('h') | Key::Backspace | Key::Left => Action::ExitItem,
        Key::Char('a') => Action::AddFile,
        Key::Char('r') => if hovering {
            Action::RenameFile
        } else {
            Action::Nothing
        },
        Key::Char('d') => if hovering {
            Action::DeleteFile
        } else {
            Action::Nothing
        },
        Key::Char('x') => Action::CloseMessage,
        Key::Char('q') | Key::Esc => Action::Quit,
        _ => Action::Nothing,
    }
}

/// The action of `key` while a name is being typed.
pub open spec fn typing_action(key: Key) -> Action {
    match key {
        Key::Esc => Action::NavigationInputMode,
        Key::Enter => Action::Enter,
        _ => Action::InputChar,
    }
}

/// The action of `key` while an operation waits to be confirmed.
pub open spec fn confirming_action(key: Key) -> Action {
    match key {
        Key::Esc | Key::Char('n') => Action::NavigationInputMode,
        Key::Enter | Key::Char('y') => Action::Enter,
        _ => Action::Nothing,
    }
}

/// The action of `key` in `mode`.
pub open spec fn action_for(mode: InputMode, hovering: bool, key: Key) -> Action {
    match mode {
        InputMode::Navigation => navigation_action(hovering, key),
        InputMode::Operation(OperationType::Add) | InputMode::Operation(OperationType::Rename) => {
            typing_action(key)
        },
        InputMode::Confirmation(_) => confirming_action(key),
        InputMode::Operation(OperationType::Delete) | InputMode::Command => Action::Nothing,
    }
}

/// Reads the action of `key` in `mode` off the table.
pub fn classify(mode: InputMode, hovering: bool, key: Key) -> (action: Action)
    ensures
        action == action_for(mode, hovering, key),
{
    match mode {
        InputMode::Navigation => match key {
            Key::Char('j') | Key::Down => Action::NextItem,
            Key::Char('k') | Key::Up => Action::PreviousItem,
            Key::Char('l') | Key::Enter | Key::Right => Action::EnterItem,
            Key::Char('h') | Key::Backspace | Key::Left => Action::ExitItem,
            Key::Char('a') => Action::AddFile,
            Key::Char('r') if hovering => Action::RenameFile,
            Key::Char('d') if hovering => Action::DeleteFile,
            Key::Char('x') => Action::CloseMessage,
            Key::Char('q') | Key::Esc => Action::Quit,
            _ => Action::Nothing,
        },
        InputMode::Operation(OperationType::Add) | InputMode::Operation(OperationType::Rename) => {
            match key {
                Key::Esc => Action::NavigationInputMode,
                Key::Enter => Action::Enter,
                _ => Action::InputChar,
            }
        },
        InputMode::Confirmation(_) => match key {
            Key::Esc | Key::Char('n') => Action::NavigationInputMode,
            Key::Enter | Key::Char('y') => Action::Enter,
            _ => Action::Nothing,
        },
        _ => Action::Nothing,
    }
}

} // verus!
