//! The line of text that the user types a file name into.
//!
//! The line itself is a `tui_input::Input`. Nothing in this file is proved of
//! it: each item below states what the named function of that crate does, and
//! the rest of the library reasons from these statements.

use crate::mode::Key;
use ratatui::crossterm::event::{Event, KeyCode, KeyEvent, KeyModifiers};
use tui_input::backend::crossterm::EventHandler;
use tui_input::Input;
use vstd::prelude::*;

verus! {

/// `tui_input::Input`: a text and a cursor into it. Nothing is known of what
/// is inside but what the items below say.
#[verifier::external_type_specification]
#[verifier::external_body]
pub struct ExInput(tui_input::Input);

/// The characters that a line holds.
pub uninterp spec fn line_text(line: Input) -> Seq<char>;

/// The number of characters that stand before the cursor of a line.
pub uninterp spec fn line_cursor(line: Input) -> nat;

/// The column of the cursor of a line holding `text` with `cursor` characters
/// before the cursor, wide characters counted by their width.
pub uninterp spec fn visual_cursor_of(text: Seq<char>, cursor: nat) -> usize;

/// The number of columns by which such a line is shifted to the left so that
/// the cursor stays within `width` columns.
pub uninterp spec fn visual_scroll_of(text: Seq<char>, cursor: nat, width: usize) -> usize;

/// A line as text and cursor.
pub struct Typed {
    pub text: Seq<char>,
    pub cursor: nat,
}

/// What one key press makes of a line; the cursor is taken to lie within the
/// text.
///
/// A character is inserted at the cursor. Backspace removes the character
/// before the cursor and Delete the one under it. Left, Right, Home and End
/// move the cursor and stop at the ends. Every other key leaves the line alone.
pub open spec fn edited(line: Typed, key: Key) -> Typed {
    let Typed { text, cursor } = line;
    match key {
        Key::Char(c) => Typed { text: text.insert(cursor as int, c), cursor: cursor + 1 },
        Key::Backspace => if cursor == 0 {
            line
        } else {
            Typed { text: text.remove(cursor - 1), cursor: (cursor - 1) as nat }
        },
        Key::Delete => if cursor == text.len() {
            line
        } else {
            Typed { text: text.remove(cursor as int), cursor }
        },
        Key::Left => if cursor == 0 {
            line
        } else {
            Typed { text, cursor: (cursor - 1) as nat }
        },
        Key::Right => if cursor == text.len() {
            line
        } else {
            Typed { text, cursor: cursor + 1 }
        },
        Key::Home => Typed { text, cursor: 0 },
        Key::End => Typed { text, cursor: text.len() },
        _ => line,
    }
}

/// The line as text and cursor.
pub open spec fn typed(line: Input) -> Typed {
    Typed { text: line_text(line), cursor: line_cursor(line) }
}

/// `Input::default`: an empty line with the cursor at its start.
#[verifier::external_body]
pub(crate) fn empty_line() -> (line: Input)
    ensures
        line_text(line) == Seq::<char>::empty(),
        line_cursor(line) == 0,
{
    Input::default()
}

/// `Input::reset` empties the line and puts the cursor at its start.
pub assume_specification[ tui_input::Input::reset ](line: &mut Input)
    ensures
        line_text(*final(line)) == Seq::<char>::empty(),
        line_cursor(*final(line)) == 0,
;

/// `Input::value` hands out the characters of the line.
pub assume_specification<'a>[ tui_input::Input::value ](line: &'a Input) -> (text: &'a str)
    ensures
        text@ == line_text(*line),
;

/// `Input::cursor` hands out the number of characters before the cursor.
pub assume_specification[ tui_input::Input::cursor ](line: &Input) -> (cursor: usize)
    ensures
        cursor == line_cursor(*line),
;

/// `Input::visual_cursor` depends on the text and the cursor alone.
pub assume_specification[ tui_input::Input::visual_cursor ](line: &Input) -> (column: usize)
    ensures
        column == visual_cursor_of(line_text(*line), line_cursor(*line)),
;

/// `Input::visual_scroll` depends on the text, the cursor and the width alone.
pub assume_specification[ tui_input::Input::visual_scroll ](line: &Input, width: usize) -> (columns:
    usize)
    ensures
        columns == visual_scroll_of(line_text(*line), line_cursor(*line), width),
;

/// `Input::handle_event` for a press of `key` without modifiers. The crate
/// turns such a press into an edit request and applies it: a character is
/// `InsertChar`, Backspace `DeletePrevChar`, Delete `DeleteNextChar`, Left
/// `GoToPrevChar`, Right `GoToNextChar`, Home `GoToStart`, End `GoToEnd`, and
/// any other key is no request at all. The cursor of an `Input` never lies
/// beyond its text, and on such a line the outcome is [`edited`].
#[verifier::external_body]
pub(crate) fn feed(line: &mut Input, key: Key)
    ensures
        typed(*final(line)) == edited(typed(*old(line)), key),
{
    let code = match key {
        Key::Char(c) => KeyCode::Char(c),
        Key::Enter => KeyCode::Enter,
        Key::Esc => KeyCode::Esc,
        Key::Backspace => KeyCode::Backspace,
        Key::Delete => KeyCode::Delete,
        Key::Left => KeyCode::Left,
        Key::Right => KeyCode::Right,
        Key::Up => KeyCode::Up,
        Key::Down => KeyCode::Down,
        Key::Home => KeyCode::Home,
        Key::End => KeyCode::End,
        Key::Other => KeyCode::Null,
    };
    line.handle_event(&Event::Key(KeyEvent::new(code, KeyModifiers::NONE)));
}

} // verus!
