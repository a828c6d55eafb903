//! The browser's state and the moves of its cursor through the file system.

use crate::line::{empty_line, typed, Typed};
use crate::location::{texts, Location, Place};
use crate::mode::InputMode;
use tui_input::Input;
use vstd::prelude::*;
use vstd::string::*;

pub mod events;
pub mod files;
pub mod navigate;
pub mod panels;
pub mod preview;

verus! {

/// What a [`FileManager`] stands for.
pub struct Model {
    /// The directory on display.
    pub path: Place,
    /// The names in that directory as they were last read, in the order in
    /// which the file system gave them.
    pub entries: Seq<Seq<char>>,
    /// The index under the cursor, if any.
    pub selection: Option<usize>,
    /// For each descent still to be undone, the index it started from.
    pub stack: Seq<usize>,
    /// Whether `entries` was read for another directory or before a file
    /// operation, so that it says nothing of what `path` holds now.
    pub stale: bool,
    /// What key presses currently mean.
    pub mode: InputMode,
    /// The name being typed.
    pub line: Typed,
    /// What went wrong in the last operation; empty if nothing did.
    pub error: Seq<char>,
    /// Whether the user has asked to leave.
    pub exit: bool,
}

/// A line with nothing typed.
pub open spec fn blank() -> Typed {
    Typed { text: Seq::empty(), cursor: 0 }
}

impl Model {
    /// The state a browser starts in at `path`: navigating, with the cursor on
    /// the first entry of a listing that is yet to be read.
    pub open spec fn initial(path: Place) -> Model {
        Model {
            path,
            entries: Seq::empty(),
            selection: Some(0),
            stack: Seq::empty(),
            stale: true,
            mode: InputMode::Navigation,
            line: blank(),
            error: Seq::empty(),
            exit: false,
        }
    }

    /// What holds of every state a browser can be in: no more descents are
    /// recorded than the path has levels, the cursor of a listing that is up
    /// to date points at one of its entries, and nothing is on the line
    /// while the browser navigates.
    pub open spec fn wf(self) -> bool {
        &&& self.stack.len() <= self.path.segments.len()
        &&& (self.stale || self.selection is None || self.selection.unwrap() < self.entries.len())
        &&& (self.mode is Navigation ==> self.line == blank())
    }

    /// The index of the hovered entry: the one under the cursor of a listing
    /// that is up to date.
    pub open spec fn hovered(self) -> Option<usize> {
        if !self.stale && self.selection is Some && self.selection.unwrap() < self.entries.len() {
            self.selection
        } else {
            None
        }
    }

    /// The position of the hovered entry, or the directory on display when
    /// nothing is hovered.
    pub open spec fn hovered_place(self) -> Place {
        match self.hovered() {
            Some(i) => self.path.child(self.entries[i as int]),
            None => self.path,
        }
    }
}

/// The browser: where it stands, what it lists, and what the user is doing.
#[derive(Debug)]
pub struct FileManager {
    path: Location,
    path_items: Vec<String>,
    past_states: Vec<usize>,
    selected: Option<usize>,
    stale: bool,
    input_mode: InputMode,
    input: Input,
    error: String,
    exit: bool,
}

impl View for FileManager {
    type V = Model;

    closed spec fn view(&self) -> Model {
        Model {
            path: self.path@,
            entries: texts(self.path_items@),
            selection: self.selected,
            stack: self.past_states@,
            stale: self.stale,
            mode: self.input_mode,
            line: typed(self.input),
            error: self.error@,
            exit: self.exit,
        }
    }
}

impl Default for FileManager {
    /// A browser whose path is unset: an empty root with nothing below it.
    fn default() -> (manager: FileManager)
        ensures
            manager@ == Model::initial(Place { root: Seq::empty(), segments: Seq::empty() }),
            manager@.wf(),
    {
        FileManager::new(Location::new(String::new()))
    }
}

impl FileManager {
    /// A browser that starts at `path`.
    pub fn new(path: Location) -> (manager: FileManager)
        ensures
            manager@ == Model::initial(path@),
            manager@.wf(),
    {
        let manager = FileManager {
            path,
            path_items: Vec::new(),
            past_states: Vec::new(),
            selected: Some(0),
            stale: true,
            input_mode: InputMode::Navigation,
            input: empty_line(),
            error: String::new(),
            exit: false,
        };
        assert(texts(manager.path_items@) =~= Seq::empty());
        manager
    }

    /// The directory on display.
    pub fn path(&self) -> (path: &Location)
        ensures
            path@ == self@.path,
    {
        &self.path
    }

    /// The names in the directory on display, as they were last read.
    pub fn path_items(&self) -> (names: &Vec<String>)
        ensures
            texts(names@) == self@.entries,
    {
        &self.path_items
    }

    /// The index under the cursor, if any.
    pub fn selected(&self) -> (index: Option<usize>)
        ensures
            index == self@.selection,
    {
        self.selected
    }

    /// For each descent still to be undone, the index it started from.
    pub fn past_states(&self) -> (indices: &Vec<usize>)
        ensures
            indices@ == self@.stack,
    {
        &self.past_states
    }

    /// Whether the listing has to be read again before it is used.
    pub fn is_stale(&self) -> (stale: bool)
        ensures
            stale == self@.stale,
    {
        self.stale
    }

    /// What key presses currently mean.
    pub fn input_mode(&self) -> (mode: InputMode)
        ensures
            mode == self@.mode,
    {
        self.input_mode
    }

    /// The name typed so far.
    pub fn input_value(&self) -> (text: String)
        ensures
            text@ == self@.line.text,
    {
        String::from_str(self.input.value())
    }

    /// The number of characters of that name that stand before the cursor.
    pub fn input_cursor(&self) -> (cursor: usize)
        ensures
            cursor == self@.line.cursor,
    {
        self.input.cursor()
    }

    /// What went wrong in the last operation; empty if nothing did.
    pub fn error(&self) -> (message: &String)
        ensures
            message@ == self@.error,
    {
        &self.error
    }

    /// Whether the user has asked to leave.
    pub fn should_exit(&self) -> (leaving: bool)
        ensures
            leaving == self@.exit,
    {
        self.exit
    }

    /// The index of the hovered entry, if an entry is hovered.
    pub fn hovered_index(&self) -> (index: Option<usize>)
        ensures
            index == self@.hovered(),
    {
        match self.selected {
            Some(index) if !self.stale && index < self.path_items.len() => Some(index),
            _ => None,
        }
    }

    /// Whether an entry is hovered.
    pub fn is_hovering(&self) -> (hovering: bool)
        ensures
            hovering == (self@.hovered() is Some),
    {
        self.hovered_index().is_some()
    }

    /// The position of the hovered entry, or the directory on display when
    /// nothing is hovered.
    pub fn get_hovered_dir(&self) -> (place: Location)
        ensures
            place@ == self@.hovered_place(),
    {
        match self.hovered_index() {
            Some(index) => self.path.join(self.path_items[index].as_str()),
            None => self.path.duplicate(),
        }
    }

    /// Records that the user has asked to leave.
    pub fn exit(&mut self)
        ensures
            final(self)@ == (Model { exit: true, ..old(self)@ }),
            old(self)@.wf() ==> final(self)@.wf(),
    {
        self.exit = true;
    }
}

} // verus!
