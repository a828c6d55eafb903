//! Recording what came of creating, renaming and deleting files.

use crate::manager::{blank, FileManager, Model};
use crate::mode::InputMode;
use crate::text::{debug_text, quoted, sentence};
use vstd::prelude::*;
use vstd::string::*;

verus! {

/// The message for a file that could not be created.
pub open spec fn create_failure(name: Seq<char>, reason: Seq<char>) -> Seq<char> {
    "Error making "@ + name + ": "@ + reason
}

/// The message for an entry that could not be renamed.
pub open spec fn rename_failure(at: Seq<char>, reason: Seq<char>) -> Seq<char> {
    "Error renaming file "@ + debug_text(at) + ": "@ + reason
}

/// The message for an entry that could not be deleted.
pub open spec fn delete_failure(at: Seq<char>, reason: Seq<char>) -> Seq<char> {
    "Error deleting "@ + at + ": "@ + reason
}

/// Why an operation on the hovered entry is refused when nothing is hovered:
/// it would act on the directory on display.
pub open spec fn refusal() -> Seq<char> {
    "File must not be current directory."@
}

impl Model {
    /// The state after an attempt to create the file named by the line. The
    /// browser is back to navigating and the line is used up; the error is
    /// the failure's message or empty; a file that was created makes the
    /// listing stale.
    pub open spec fn created(self, outcome: Result<(), String>) -> Model {
        Model {
            mode: InputMode::Navigation,
            line: blank(),
            error: match outcome {
                Ok(_) => Seq::empty(),
                Err(reason) => create_failure(self.line.text, reason@),
            },
            stale: self.stale || outcome is Ok,
            ..self
        }
    }

    /// The state after an attempt to give the hovered entry the name on the
    /// line. With nothing hovered no attempt is made, `outcome` counts for
    /// nothing and the refusal is the error.
    pub open spec fn renamed(self, outcome: Result<(), String>) -> Model {
        Model {
            mode: InputMode::Navigation,
            line: blank(),
            error: if self.hovered() is None {
                rename_failure(self.path.shown(), refusal())
            } else {
                match outcome {
                    Ok(_) => Seq::empty(),
                    Err(reason) => rename_failure(self.hovered_place().shown(), reason@),
                }
            },
            stale: self.stale || (self.hovered() is Some && outcome is Ok),
            ..self
        }
    }

    /// The state after an attempt to delete the hovered entry. With nothing
    /// hovered no attempt is made, `outcome` counts for nothing and the
    /// refusal is the error.
    pub open spec fn removed(self, outcome: Result<(), String>) -> Model {
        Model {
            mode: InputMode::Navigation,
            line: blank(),
            error: if self.hovered() is None {
                delete_failure(self.path.shown(), refusal())
            } else {
                match outcome {
                    Ok(_) => Seq::empty(),
                    Err(reason) => delete_failure(self.hovered_place().shown(), reason@),
                }
            },
            stale: self.stale || (self.hovered() is Some && outcome is Ok),
            ..self
        }
    }
}

impl FileManager {
    /// Takes the outcome of creating the file that the line names, and goes
    /// back to navigating.
    pub fn create_file(&mut self, outcome: Result<(), String>)
        ensures
            final(self)@ == old(self)@.created(outcome),
            old(self)@.wf() ==> final(self)@.wf(),
    {
        let file_name = String::from_str(self.input.value());
        self.input.reset();
        self.input_mode = InputMode::Navigation;
        match outcome {
            Ok(_) => {
                self.error = String::new();
                self.stale = true;
            },
            Err(reason) => {
                self.error = sentence("Error making ", file_name.as_str(), ": ", reason.as_str());
            },
        }
    }

    /// Takes the outcome of renaming the hovered entry to what the line
    /// names, and goes back to navigating.
    pub fn rename_file(&mut self, outcome: Result<(), String>)
        ensures
            final(self)@ == old(self)@.renamed(outcome),
            old(self)@.wf() ==> final(self)@.wf(),
    {
        let hovered_file = quoted(self.get_hovered_dir().text().as_str());
        let hovering = self.is_hovering();
        self.input.reset();
        self.input_mode = InputMode::Navigation;
        if !hovering {
            self.error = sentence(
                "Error renaming file ",
                hovered_file.as_str(),
                ": ",
                "File must not be current directory.",
            );
            return ;
        }
        match outcome {
            Ok(_) => {
                self.error = String::new();
                self.stale = true;
            },
            Err(reason) => {
                self.error = sentence(
                    "Error renaming file ",
                    hovered_file.as_str(),
                    ": ",
                    reason.as_str(),
                );
            },
        }
    }

    /// Takes the outcome of deleting the hovered entry, and goes back to
    /// navigating.
    pub fn remove_file(&mut self, outcome: Result<(), String>)
        ensures
            final(self)@ == old(self)@.removed(outcome),
            old(self)@.wf() ==> final(self)@.wf(),
    {
        let file_dir = self.get_hovered_dir().text();
        self.input.reset();
        self.input_mode = InputMode::Navigation;
        if !self.is_hovering() {
            self.error = sentence(
                "Error deleting ",
                file_dir.as_str(),
                ": ",
                "File must not be current directory.",
            );
            return ;
        }
        match outcome {
            Ok(_) => {
                self.error = String::new();
                self.stale = true;
            },
            Err(reason) => {
                self.error = sentence("Error deleting ", file_dir.as_str(), ": ", reason.as_str());
            },
        }
    }
}

} // verus!
