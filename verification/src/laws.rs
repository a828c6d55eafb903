//! What holds of the browser whatever the user and the file system do.

use crate::location::texts;
use crate::manager::events::Demand;
use crate::manager::preview::Found;
use crate::manager::{blank, Model};
use crate::mode::{Action, InputMode, Key, OperationType};
use crate::raster::Picture;
use vstd::prelude::*;

verus! {

/// One move through the directory tree.
pub enum Travel {
    /// The directory on display is read as the names, and the hovered entry
    /// is entered with the given answer to whether it is a directory.
    Descend(Seq<Seq<char>>, Result<bool, String>),
    /// An ascent to the parent directory.
    Ascend,
    /// The directory on display cannot be read, for the given reason, and is
    /// left for its parent.
    Lose(String),
}

/// The state after the moves of `route`, one after the other.
pub open spec fn travelled(start: Model, route: Seq<Travel>) -> Model
    decreases route.len(),
{
    if route.len() == 0 {
        start
    } else {
        let before = travelled(start, route.drop_last());
        match route.last() {
            Travel::Descend(names, probe) => before.listed(names).entered(probe),
            Travel::Ascend => before.exited(),
            Travel::Lose(reason) => before.refreshed(Err(reason)),
        }
    }
}

/// Whether the last move of `route` is a descent that takes place: an entry
/// is hovered and it is a directory.
pub open spec fn descends(start: Model, route: Seq<Travel>) -> bool {
    route.len() > 0 && match route.last() {
        Travel::Descend(names, probe) => travelled(start, route.drop_last()).listed(
            names,
        ).hovered() is Some && probe == Ok::<bool, String>(true),
        _ => false,
    }
}

/// The descents of `route` that its ascents have not undone, on top of those
/// that `start` remembers: a descent that takes place adds one; an ascent,
/// asked for or forced by a directory that cannot be read, takes one away if
/// there is one.
pub open spec fn net_descents(start: Model, route: Seq<Travel>) -> nat
    decreases route.len(),
{
    if route.len() == 0 {
        start.stack.len()
    } else {
        let before = net_descents(start, route.drop_last());
        match route.last() {
            Travel::Descend(_, _) => if descends(start, route) {
                before + 1
            } else {
                before
            },
            _ => if before > 0 {
                (before - 1) as nat
            } else {
                0
            },
        }
    }
}

/// Every transition keeps a well-formed state well-formed.
pub proof fn lemma_transitions_keep_wf(
    state: Model,
    key: Key,
    index: usize,
    names: Seq<Seq<char>>,
    probe: Result<bool, String>,
    read: Result<Vec<String>, String>,
    outcome: Result<(), String>,
    found: Found,
)
    requires
        state.wf(),
    ensures
        state.previewed(found).wf(),
        state.moved_down().wf(),
        state.moved_up().wf(),
        state.descended(index).wf(),
        state.entered(probe).wf(),
        state.exited().wf(),
        state.listed(names).wf(),
        state.refreshed(read).wf(),
        state.created(outcome).wf(),
        state.renamed(outcome).wf(),
        state.removed(outcome).wf(),
        state.after_key(key).wf(),
{
}

/// After any sequence of descents and ascents the stack of remembered indices
/// is as deep as the number of descents not yet undone, and a state that was
/// well-formed still is.
pub proof fn lemma_depth_counts_net_descents(start: Model, route: Seq<Travel>)
    ensures
        travelled(start, route).stack.len() == net_descents(start, route),
        start.wf() ==> travelled(start, route).wf(),
    decreases route.len(),
{
    if route.len() > 0 {
        lemma_depth_counts_net_descents(start, route.drop_last());
    }
}

/// An ascent from the root leaves the path as it is.
pub proof fn lemma_ascent_from_root(state: Model)
    requires
        state.path.segments.len() == 0,
    ensures
        state.exited().path == state.path,
{
}

/// An ascent undoes a descent: the path and the stack are as before, and the
/// cursor is on the entry that was entered.
pub proof fn lemma_ascent_restores(state: Model, index: usize)
    ensures
        state.descended(index).exited().path == state.path,
        state.descended(index).exited().stack == state.stack,
        state.descended(index).exited().selection == Some(index),
{
    let down = state.descended(index);
    assert(down.path.segments.drop_last() =~= state.path.segments);
    assert(down.stack.drop_last() =~= state.stack);
}

/// The same with the listings read in between: after a descent into the
/// hovered entry and an ascent, the cursor is back on that entry provided the
/// directory still has that many entries.
pub proof fn lemma_ascent_restores_hovered(
    state: Model,
    below: Seq<Seq<char>>,
    above: Seq<Seq<char>>,
)
    requires
        state.hovered() is Some,
        state.hovered().unwrap() < above.len(),
    ensures
        state.entered(Ok(true)).listed(below).exited().listed(above).selection == state.hovered(),
        state.entered(Ok(true)).listed(below).exited().listed(above).path == state.path,
        state.entered(Ok(true)).listed(below).exited().listed(above).stack == state.stack,
{
    let index = state.hovered().unwrap();
    let down = state.descended(index).listed(below);
    assert(down.path.segments.drop_last() =~= state.path.segments);
    assert(down.stack.drop_last() =~= state.stack);
}

/// Whether the transition table has a row for `key` in `mode`; `hovering`
/// says whether an entry is hovered, which the rows for `r` and `d` ask for.
pub open spec fn in_table(mode: InputMode, hovering: bool, key: Key) -> bool {
    match mode {
        InputMode::Navigation => match key {
            Key::Down | Key::Up | Key::Enter | Key::Right | Key::Backspace | Key::Left | Key::Esc => true,
            Key::Char(c) => c == 'j' || c == 'k' || c == 'l' || c == 'h' || c == 'a' || c == 'x'
                || c == 'q' || (hovering && (c == 'r' || c == 'd')),
            _ => false,
        },
        InputMode::Operation(kind) => kind != OperationType::Delete && match key {
            Key::Up | Key::Down | Key::Other => false,
            _ => true,
        },
        InputMode::Confirmation(_) => match key {
            Key::Esc | Key::Enter => true,
            Key::Char(c) => c == 'n' || c == 'y',
            _ => false,
        },
        InputMode::Command => false,
    }
}

/// A key press for which the transition table has no row changes nothing and
/// asks nothing of the file system.
pub proof fn lemma_unlisted_key_changes_nothing(state: Model, key: Key)
    requires
        !in_table(state.mode, state.hovered() is Some, key),
    ensures
        state.after_key(key) == state,
        state.demand(key) == Demand::Nothing,
{
}

/// Only the rows of the table change the mode, each as the table says. A yes
/// to a confirmation leaves the mode until the file system has answered,
/// unless the operation is refused on the spot.
pub proof fn lemma_mode_after_key(state: Model, key: Key)
    ensures
        state.after_key(key).mode == match state.action(key) {
            Action::AddFile => InputMode::Operation(OperationType::Add),
            Action::RenameFile => InputMode::Operation(OperationType::Rename),
            Action::DeleteFile => InputMode::Confirmation(OperationType::Delete),
            Action::NavigationInputMode => InputMode::Navigation,
            Action::Enter => match state.mode {
                InputMode::Operation(kind) => InputMode::Confirmation(kind),
                InputMode::Confirmation(_) => if state.demand(key) == Demand::Nothing {
                    InputMode::Navigation
                } else {
                    state.mode
                },
                _ => state.mode,
            },
            _ => state.mode,
        },
{
}

/// Once the outcome of a file operation is reported the browser navigates
/// again, with nothing on the line.
pub proof fn lemma_outcome_ends_operation(state: Model, outcome: Result<(), String>)
    ensures
        state.created(outcome).mode == InputMode::Navigation,
        state.renamed(outcome).mode == InputMode::Navigation,
        state.removed(outcome).mode == InputMode::Navigation,
        state.created(outcome).line == blank(),
        state.renamed(outcome).line == blank(),
        state.removed(outcome).line == blank(),
{
}

/// Renaming and deleting start only with an entry hovered.
pub proof fn lemma_guards(state: Model, key: Key)
    requires
        state.mode == InputMode::Navigation,
        state.after_key(key).mode == InputMode::Operation(OperationType::Rename)
            || state.after_key(key).mode == InputMode::Confirmation(OperationType::Delete),
    ensures
        state.hovered() is Some,
{
}

/// A file operation that succeeds leaves no error behind, whatever the error
/// was before, and makes the listing stale.
pub proof fn lemma_success_clears_error(state: Model)
    ensures
        state.created(Ok(())).error.len() == 0,
        state.created(Ok(())).stale,
        state.hovered() is Some ==> state.renamed(Ok(())).error.len() == 0 && state.renamed(
            Ok(()),
        ).stale,
        state.hovered() is Some ==> state.removed(Ok(())).error.len() == 0 && state.removed(
            Ok(()),
        ).stale,
{
}

/// A file operation that fails leaves the listing and the cursor as they
/// were and an error that is not empty.
pub proof fn lemma_failure_keeps_listing(state: Model, reason: String)
    ensures
        state.created(Err(reason)).error.len() > 0,
        state.renamed(Err(reason)).error.len() > 0,
        state.removed(Err(reason)).error.len() > 0,
        state.created(Err(reason)).entries == state.entries,
        state.renamed(Err(reason)).entries == state.entries,
        state.removed(Err(reason)).entries == state.entries,
        state.created(Err(reason)).selection == state.selection,
        state.renamed(Err(reason)).selection == state.selection,
        state.removed(Err(reason)).selection == state.selection,
        state.created(Err(reason)).stale == state.stale,
        state.renamed(Err(reason)).stale == state.stale,
        state.removed(Err(reason)).stale == state.stale,
{
    reveal_strlit("Error making ");
    reveal_strlit("Error renaming file ");
    reveal_strlit("Error deleting ");
}

/// Reading the directory brings the listing up to date: the entries are the
/// names read, in their order, and the cursor points at one of them or at
/// nothing.
pub proof fn lemma_listing_is_what_was_read(state: Model, names: Vec<String>)
    ensures
        state.refreshed(Ok(names)).entries == texts(names@),
        !state.refreshed(Ok(names)).stale,
        state.refreshed(Ok(names)).selection matches Some(index) ==> index < names@.len(),
        names@.len() == 0 ==> state.refreshed(Ok(names)).selection is None,
        (state.selection matches Some(index) && index < names@.len()) ==> state.refreshed(
            Ok(names),
        ).selection == state.selection,
{
}

/// A picture fills as many rows of cells as half its height, rounded up, each
/// as wide as the picture.
pub proof fn lemma_grid_size(picture: Picture)
    ensures
        picture.halfblocks().len() == (picture.height + 1) / 2,
        forall|y: int|
            0 <= y < picture.halfblocks().len() ==> (#[trigger] picture.halfblocks()[y]).len()
                == picture.width,
{
}

/// A picture fitted to an area of `width` by `height` cells fills exactly
/// `height` rows of `width` cells.
pub proof fn lemma_fitted_fills_area(picture: Picture, width: nat, height: nat)
    ensures
        picture.fitted(width, height).halfblocks().len() == height,
        forall|y: int|
            0 <= y < height ==> (#[trigger] picture.fitted(width, height).halfblocks()[y]).len()
                == width,
{
}

/// In the last row of cells of a picture of odd height the lower colour is
/// the upper one.
pub proof fn lemma_odd_height_repeats_last_row(picture: Picture, x: int)
    requires
        picture.height % 2 == 1,
        0 <= x < picture.width,
    ensures
        picture.halfblocks().len() > 0,
        picture.halfblocks().last()[x].bg == picture.halfblocks().last()[x].fg,
{
}

} // verus!
