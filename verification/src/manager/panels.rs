//! What the panel below the listing holds: the current error, the line being
//! typed, or the question that awaits a yes or a no.

use crate::line::{visual_cursor_of, visual_scroll_of};
use crate::manager::{FileManager, Model};
use crate::mode::{InputMode, OperationType};
use crate::text::{debug_text, phrase, quoted, sentence};
use vstd::prelude::*;
use vstd::string::*;

verus! {

/// What stands below the listing.
#[derive(Clone, Copy, Debug, PartialEq, Eq, Structural)]
pub enum Panel {
    /// No panel: the listing has the whole height.
    Absent,
    /// A panel with nothing in it.
    Blank,
    /// The current error.
    Error,
    /// The line being typed.
    Input,
    /// The question that awaits a yes or a no.
    Confirmation,
}

/// The line being typed, ready to be drawn.
#[derive(Debug, PartialEq, Eq)]
pub struct InputBox {
    /// The caption of the box.
    pub title: String,
    /// The text typed so far.
    pub text: String,
    /// The number of columns by which the text is shifted to the left.
    pub scroll: usize,
}

/// The columns left for text in a box `width` columns wide: all but three,
/// and none in a box narrower than that.
pub open spec fn inner_width(width: nat) -> nat {
    if width > 3 {
        (width - 3) as nat
    } else {
        0
    }
}

impl Model {
    /// The panel that goes with the current mode.
    pub open spec fn panel(self) -> Panel {
        match self.mode {
            InputMode::Navigation => if self.error.len() > 0 {
                Panel::Error
            } else {
                Panel::Absent
            },
            InputMode::Operation(OperationType::Delete) | InputMode::Confirmation(_) => {
                Panel::Confirmation
            },
            InputMode::Operation(_) => Panel::Input,
            InputMode::Command => Panel::Blank,
        }
    }

    /// The name of the hovered entry.
    pub open spec fn hovered_name(self) -> Option<Seq<char>> {
        match self.hovered() {
            Some(index) => Some(self.entries[index as int]),
            None => None,
        }
    }

    /// The question that the pending operation asks; empty where there is
    /// none to ask.
    pub open spec fn confirmation_text(self) -> Seq<char> {
        match self.mode {
            InputMode::Confirmation(OperationType::Add) => "Are you sure you want to make "@
                + debug_text(self.line.text) + " as a new file?"@,
            InputMode::Confirmation(OperationType::Rename) => match self.hovered_name() {
                Some(name) => "Are you sure you want to rename "@ + debug_text(name) + " to \""@
                    + self.line.text + "\"?"@,
                None => Seq::empty(),
            },
            InputMode::Confirmation(OperationType::Delete) | InputMode::Operation(
                OperationType::Delete,
            ) => match self.hovered_name() {
                Some(name) => "Are you sure you want to delete "@ + debug_text(name) + "?"@,
                None => Seq::empty(),
            },
            _ => Seq::empty(),
        }
    }

    /// The caption of the box that holds the line.
    pub open spec fn input_title(self) -> Seq<char> {
        match (self.mode, self.hovered_name()) {
            (InputMode::Operation(OperationType::Add), _) => " Adding new file named... "@,
            (InputMode::Operation(OperationType::Rename), Some(name)) => " Renaming file "@
                + debug_text(name) + " into... "@,
            _ => " Input "@,
        }
    }

    /// The number of columns by which the line is shifted to the left in a
    /// box `width` columns wide.
    pub open spec fn input_scroll(self, width: nat) -> usize {
        visual_scroll_of(self.line.text, self.line.cursor, inner_width(width) as usize)
    }

    /// The column of the cursor within the text that such a box shows.
    pub open spec fn cursor_column(self, width: nat) -> nat {
        let column = visual_cursor_of(self.line.text, self.line.cursor);
        let scroll = self.input_scroll(width);
        if column >= scroll {
            (column - scroll) as nat
        } else {
            0
        }
    }

    /// The cell of the cursor in a box whose corner is at column `x` of row
    /// `y`: one past the border in both directions, if the screen has such a
    /// cell.
    pub open spec fn cursor_cell(self, x: u16, y: u16, width: u16) -> Option<(u16, u16)> {
        let column = x + 1 + self.cursor_column(width as nat);
        if column <= u16::MAX && y < u16::MAX {
            Some((column as u16, (y + 1) as u16))
        } else {
            None
        }
    }
}

impl FileManager {
    /// The name of the hovered entry.
    fn hovered_name(&self) -> (name: Option<&String>)
        ensures
            name is Some <==> self@.hovered_name() is Some,
            name matches Some(text) ==> text@ == self@.hovered_name().unwrap(),
    {
        match self.hovered_index() {
            Some(index) => Some(&self.path_items[index]),
            None => None,
        }
    }

    /// Decides which panel the frame has below the listing.
    pub fn draw(&self) -> (panel: Panel)
        ensures
            panel == self@.panel(),
    {
        match self.input_mode {
            InputMode::Navigation => if self.error.as_str().is_empty() {
                Panel::Absent
            } else {
                Panel::Error
            },
            InputMode::Operation(OperationType::Delete) | InputMode::Confirmation(_) => {
                Panel::Confirmation
            },
            InputMode::Operation(_) => Panel::Input,
            InputMode::Command => Panel::Blank,
        }
    }

    /// The question that the pending operation asks.
    pub fn render_confirmation_text(&self) -> (text: String)
        ensures
            text@ == self@.confirmation_text(),
    {
        match self.input_mode {
            InputMode::Confirmation(OperationType::Add) => {
                let file_name = quoted(self.input.value());
                phrase("Are you sure you want to make ", file_name.as_str(), " as a new file?")
            },
            InputMode::Confirmation(OperationType::Rename) => match self.hovered_name() {
                Some(name) => {
                    let file_name = quoted(name.as_str());
                    let mut text = sentence(
                        "Are you sure you want to rename ",
                        file_name.as_str(),
                        " to \"",
                        self.input.value(),
                    );
                    text.append("\"?");
                    text
                },
                None => String::new(),
            },
            InputMode::Confirmation(OperationType::Delete) | InputMode::Operation(
                OperationType::Delete,
            ) => match self.hovered_name() {
                Some(name) => {
                    let file_name = quoted(name.as_str());
                    phrase("Are you sure you want to delete ", file_name.as_str(), "?")
                },
                None => String::new(),
            },
            _ => String::new(),
        }
    }

    /// The line being typed, for a box `width` columns wide.
    pub fn render_input_text(&self, width: u16) -> (input_box: InputBox)
        ensures
            input_box.title@ == self@.input_title(),
            input_box.text@ == self@.line.text,
            input_box.scroll == self@.input_scroll(width as nat),
    {
        let inner: u16 = if width > 3 {
            width - 3
        } else {
            0
        };
        let scroll = self.input.visual_scroll(inner as usize);
        let title = match (self.input_mode, self.hovered_name()) {
            (InputMode::Operation(OperationType::Add), _) => String::from_str(
                " Adding new file named... ",
            ),
            (InputMode::Operation(OperationType::Rename), Some(name)) => {
                let file_name = quoted(name.as_str());
                phrase(" Renaming file ", file_name.as_str(), " into... ")
            },
            _ => String::from_str(" Input "),
        };
        InputBox { title, text: String::from_str(self.input.value()), scroll }
    }

    /// The cell in which the cursor of the line is drawn, for a box `width`
    /// columns wide whose corner is at column `x` of row `y`.
    pub fn render_cursor(&self, x: u16, y: u16, width: u16) -> (cell: Option<(u16, u16)>)
        ensures
            cell == self@.cursor_cell(x, y, width),
    {
        let inner: u16 = if width > 3 {
            width - 3
        } else {
            0
        };
        let scroll = self.input.visual_scroll(inner as usize);
        let column = self.input.visual_cursor();
        let cursor_pos: usize = if column >= scroll {
            column - scroll
        } else {
            0
        };
        if cursor_pos <= 0xffff && x as usize + 1 + cursor_pos <= 0xffff && y < 0xffff {
            Some(((x as usize + 1 + cursor_pos) as u16, y + 1))
        } else {
            None
        }
    }
}

} // verus!
