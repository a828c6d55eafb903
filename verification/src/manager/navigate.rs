//! Moving the cursor, descending, ascending, and reading the listing again.

use crate::location::texts;
use crate::manager::{FileManager, Model};
use crate::selection::{clamp, clamped, following, preceding, step_down, step_up};
use crate::text::{debug_text, quoted, sentence};
use vstd::prelude::*;

verus! {

/// The message for a position whose kind the file system would not tell.
pub open spec fn metadata_failure(at: Seq<char>, reason: Seq<char>) -> Seq<char> {
    "Error getting metadata of path "@ + at + ": "@ + reason
}

/// The message for a directory that could not be read.
pub open spec fn listing_failure(at: Seq<char>, reason: Seq<char>) -> Seq<char> {
    "Error entering dir: "@ + debug_text(at) + ": "@ + reason
}

impl Model {
    /// The cursor one entry further down, stopping at the last one. On a
    /// stale listing the step is taken as it comes; the next read brings the
    /// cursor back into the listing.
    pub open spec fn moved_down(self) -> Model {
        let next = Some(following(self.selection));
        Model { selection: if self.stale { next } else { clamped(next, self.entries.len()) }, ..self }
    }

    /// The cursor one entry further up, stopping at the first one; from no
    /// entry at all it goes to the last one.
    pub open spec fn moved_up(self) -> Model {
        let previous = Some(preceding(self.selection));
        Model {
            selection: if self.stale { previous } else { clamped(previous, self.entries.len()) },
            ..self
        }
    }

    /// The state after a descent into the entry at `index`: the path one level
    /// deeper, the index remembered, the cursor on the first entry of a
    /// listing that is yet to be read.
    pub open spec fn descended(self, index: usize) -> Model {
        Model {
            path: self.path.child(self.entries[index as int]),
            stack: self.stack.push(index),
            selection: Some(0),
            stale: true,
            ..self
        }
    }

    /// The state after the file system has answered `probe` to the question
    /// whether the hovered entry is a directory.
    pub open spec fn entered(self, probe: Result<bool, String>) -> Model {
        match self.hovered() {
            Some(index) => match probe {
                Ok(is_dir) => if is_dir {
                    self.descended(index)
                } else {
                    self
                },
                Err(reason) => Model {
                    error: metadata_failure(self.hovered_place().shown(), reason@),
                    ..self
                },
            },
            None => self,
        }
    }

    /// The state after an ascent: the path one level up, the cursor on the
    /// index that the matching descent started from, or on the first entry
    /// where no descent is left to undo. The listing is yet to be read.
    pub open spec fn exited(self) -> Model {
        Model {
            path: self.path.parent(),
            stack: if self.stack.len() > 0 {
                self.stack.drop_last()
            } else {
                self.stack
            },
            selection: if self.stack.len() > 0 {
                Some(self.stack.last())
            } else {
                Some(0)
            },
            stale: true,
            ..self
        }
    }

    /// The state once the directory on display has been read as `names`.
    pub open spec fn listed(self, names: Seq<Seq<char>>) -> Model {
        Model {
            entries: names,
            selection: clamped(self.selection, names.len()),
            stale: false,
            ..self
        }
    }

    /// The state after an attempt to read the directory on display. A failed
    /// read is recorded and answered by an ascent.
    pub open spec fn refreshed(self, read: Result<Vec<String>, String>) -> Model {
        match read {
            Ok(names) => self.listed(texts(names@)),
            Err(reason) => Model {
                error: listing_failure(self.path.shown(), reason@),
                ..self
            }.exited(),
        }
    }
}

impl FileManager {
    /// Moves the cursor one entry down.
    pub fn select_next(&mut self)
        ensures
            final(self)@ == old(self)@.moved_down(),
            old(self)@.wf() ==> final(self)@.wf(),
    {
        let next = step_down(self.selected);
        self.selected = if self.stale {
            next
        } else {
            clamp(next, self.path_items.len())
        };
    }

    /// Moves the cursor one entry up.
    pub fn select_previous(&mut self)
        ensures
            final(self)@ == old(self)@.moved_up(),
            old(self)@.wf() ==> final(self)@.wf(),
    {
        let previous = step_up(self.selected);
        self.selected = if self.stale {
            previous
        } else {
            clamp(previous, self.path_items.len())
        };
    }

    /// Ascends to the parent directory. At the root the path stays as it is.
    pub fn exit_dir(&mut self)
        ensures
            final(self)@ == old(self)@.exited(),
            old(self)@.wf() ==> final(self)@.wf(),
    {
        self.path.pop();
        self.selected = match self.past_states.pop() {
            Some(past_state) => Some(past_state),
            None => Some(0),
        };
        self.stale = true;
    }

    /// Takes the file system's answer to the question whether the hovered
    /// entry is a directory: `Ok(true)` descends into it, `Ok(false)` changes
    /// nothing, and a failure is recorded as the current error.
    pub fn enter_hovered_dir(&mut self, probe: Result<bool, String>)
        ensures
            final(self)@ == old(self)@.entered(probe),
            old(self)@.wf() ==> final(self)@.wf(),
    {
        let index = match self.hovered_index() {
            Some(index) => index,
            None => return ,
        };
        match probe {
            Ok(is_dir) => {
                if is_dir {
                    self.path.push(self.path_items[index].clone());
                    self.past_states.push(index);
                    self.selected = Some(0);
                    self.stale = true;
                }
            },
            Err(reason) => {
                let new_path = self.get_hovered_dir().text();
                self.error = sentence(
                    "Error getting metadata of path ",
                    new_path.as_str(),
                    ": ",
                    reason.as_str(),
                );
            },
        }
    }

    /// Takes the outcome of reading the directory on display. The names
    /// replace the listing and the cursor is brought back into it; a failed
    /// read is recorded as the current error and answered by an ascent.
    pub fn render_file_items(&mut self, read: Result<Vec<String>, String>)
        ensures
            final(self)@ == old(self)@.refreshed(read),
            old(self)@.wf() ==> final(self)@.wf(),
    {
        match read {
            Ok(names) => {
                self.selected = clamp(self.selected, names.len());
                self.path_items = names;
                self.stale = false;
            },
            Err(reason) => {
                let path = quoted(self.path.text().as_str());
                self.error = sentence("Error entering dir: ", path.as_str(), ": ", reason.as_str());
                self.exit_dir();
            },
        }
    }
}

} // verus!
