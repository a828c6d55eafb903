//! One key press at a time: what it changes, and what it asks of the file
//! system.

use crate::line::{edited, feed};
use crate::location::{Location, Place};
use crate::manager::{blank, FileManager, Model};
use crate::mode::{action_for, classify, Action, InputMode, Key, OperationType};
use vstd::prelude::*;

verus! {

/// What a key press asks the caller to do on the file system. The caller
/// reports what came of it to the function named with each variant; a
/// confirmed operation stays pending until then.
#[derive(Debug, PartialEq, Eq)]
pub enum Effect {
    /// Nothing is to be done.
    Nothing,
    /// Find out whether the position is a directory; report to
    /// [`FileManager::enter_hovered_dir`].
    Probe(Location),
    /// Create a new, empty file at the position, failing if something is
    /// there already; report to [`FileManager::create_file`].
    Create(Location),
    /// Rename the first position to the second; report to
    /// [`FileManager::rename_file`].
    Rename(Location, Location),
    /// Delete the regular file at the position; report to
    /// [`FileManager::remove_file`].
    Remove(Location),
}

/// What an [`Effect`] stands for.
pub enum Demand {
    Nothing,
    Probe(Place),
    Create(Place),
    Rename(Place, Place),
    Remove(Place),
}

impl View for Effect {
    type V = Demand;

    open spec fn view(&self) -> Demand {
        match self {
            Effect::Nothing => Demand::Nothing,
            Effect::Probe(at) => Demand::Probe(at@),
            Effect::Create(at) => Demand::Create(at@),
            Effect::Rename(from, to) => Demand::Rename(from@, to@),
            Effect::Remove(at) => Demand::Remove(at@),
        }
    }
}

impl Model {
    /// The action of `key` in this state.
    pub open spec fn action(self, key: Key) -> Action {
        action_for(self.mode, self.hovered() is Some, key)
    }

    /// The position that the name on the line stands for.
    pub open spec fn named_place(self) -> Place {
        self.path.child(self.line.text)
    }

    /// The state after a yes to the pending operation. The operation stays
    /// pending until the file system has answered; an operation on the
    /// hovered entry with nothing hovered is refused on the spot.
    pub open spec fn confirmed(self, kind: OperationType) -> Model {
        match kind {
            OperationType::Add => self,
            OperationType::Rename => if self.hovered() is Some {
                self
            } else {
                self.renamed(Ok(()))
            },
            OperationType::Delete => if self.hovered() is Some {
                self
            } else {
                self.removed(Ok(()))
            },
        }
    }

    /// What a yes to the pending operation asks of the file system.
    pub open spec fn confirmed_demand(self, kind: OperationType) -> Demand {
        match kind {
            OperationType::Add => Demand::Create(self.named_place()),
            OperationType::Rename => if self.hovered() is Some {
                Demand::Rename(self.hovered_place(), self.named_place())
            } else {
                Demand::Nothing
            },
            OperationType::Delete => if self.hovered() is Some {
                Demand::Remove(self.hovered_place())
            } else {
                Demand::Nothing
            },
        }
    }

    /// The state after a press of `key`.
    pub open spec fn after_key(self, key: Key) -> Model {
        match self.action(key) {
            Action::NextItem => self.moved_down(),
            Action::PreviousItem => self.moved_up(),
            Action::EnterItem => self,
            Action::ExitItem => self.exited(),
            Action::AddFile => Model {
                mode: InputMode::Operation(OperationType::Add),
                line: blank(),
                ..self
            },
            Action::RenameFile => Model {
                mode: InputMode::Operation(OperationType::Rename),
                line: blank(),
                ..self
            },
            Action::DeleteFile => Model {
                mode: InputMode::Confirmation(OperationType::Delete),
                ..self
            },
            Action::NavigationInputMode => Model {
                mode: InputMode::Navigation,
                line: blank(),
                ..self
            },
            Action::Enter => match self.mode {
                InputMode::Operation(kind) => Model { mode: InputMode::Confirmation(kind), ..self },
                InputMode::Confirmation(kind) => self.confirmed(kind),
                _ => self,
            },
            Action::InputChar => Model { line: edited(self.line, key), ..self },
            Action::CloseMessage => Model { error: Seq::empty(), ..self },
            Action::Quit => Model { exit: true, ..self },
            Action::Nothing => self,
        }
    }

    /// What a press of `key` asks of the file system.
    pub open spec fn demand(self, key: Key) -> Demand {
        match self.action(key) {
            Action::EnterItem => if self.hovered() is Some {
                Demand::Probe(self.hovered_place())
            } else {
                Demand::Nothing
            },
            Action::Enter => match self.mode {
                InputMode::Confirmation(kind) => self.confirmed_demand(kind),
                _ => Demand::Nothing,
            },
            _ => Demand::Nothing,
        }
    }
}

impl FileManager {
    /// The action of `key` in the current state.
    pub fn handle_key_event(&self, key: Key) -> (action: Action)
        ensures
            action == self@.action(key),
    {
        classify(self.input_mode, self.is_hovering(), key)
    }

    /// Handles one key press: changes the state as far as that needs no
    /// input or output, and hands back what is to be done on the file system.
    pub fn handle_events(&mut self, key: Key) -> (effect: Effect)
        ensures
            final(self)@ == old(self)@.after_key(key),
            effect@ == old(self)@.demand(key),
            old(self)@.wf() ==> final(self)@.wf(),
    {
        match self.handle_key_event(key) {
            Action::NextItem => {
                self.select_next();
                Effect::Nothing
            },
            Action::PreviousItem => {
                self.select_previous();
                Effect::Nothing
            },
            Action::EnterItem => {
                if self.is_hovering() {
                    Effect::Probe(self.get_hovered_dir())
                } else {
                    Effect::Nothing
                }
            },
            Action::ExitItem => {
                self.exit_dir();
                Effect::Nothing
            },
            Action::AddFile => {
                self.input.reset();
                self.input_mode = InputMode::Operation(OperationType::Add);
                Effect::Nothing
            },
            Action::RenameFile => {
                self.input.reset();
                self.input_mode = InputMode::Operation(OperationType::Rename);
                Effect::Nothing
            },
            Action::DeleteFile => {
                self.input_mode = InputMode::Confirmation(OperationType::Delete);
                Effect::Nothing
            },
            Action::NavigationInputMode => {
                self.input_mode = InputMode::Navigation;
                self.input.reset();
                Effect::Nothing
            },
            Action::Enter => match self.input_mode {
                InputMode::Operation(kind) => {
                    self.input_mode = InputMode::Confirmation(kind);
                    Effect::Nothing
                },
                InputMode::Confirmation(kind) => self.confirm(kind),
                _ => Effect::Nothing,
            },
            Action::InputChar => {
                feed(&mut self.input, key);
                Effect::Nothing
            },
            Action::CloseMessage => {
                self.error = String::new();
                Effect::Nothing
            },
            Action::Quit => {
                self.exit();
                Effect::Nothing
            },
            Action::Nothing => Effect::Nothing,
        }
    }

    /// Carries out a yes to the pending operation of `kind`.
    fn confirm(&mut self, kind: OperationType) -> (effect: Effect)
        ensures
            final(self)@ == old(self)@.confirmed(kind),
            effect@ == old(self)@.confirmed_demand(kind),
            old(self)@.wf() ==> final(self)@.wf(),
    {
        match kind {
            OperationType::Add => Effect::Create(self.path.join(self.input.value())),
            OperationType::Rename => {
                if self.is_hovering() {
                    Effect::Rename(self.get_hovered_dir(), self.path.join(self.input.value()))
                } else {
                    self.rename_file(Ok(()));
                    Effect::Nothing
                }
            },
            OperationType::Delete => {
                if self.is_hovering() {
                    Effect::Remove(self.get_hovered_dir())
                } else {
                    self.remove_file(Ok(()));
                    Effect::Nothing
                }
            },
        }
    }
}

} // verus!
