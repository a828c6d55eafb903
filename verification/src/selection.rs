//! The rules by which the cursor moves through a listing.
//!
//! A step up or down is the step of `ratatui::widgets::ListState`, the state
//! of the list widget that draws the listing. Of those two steps nothing is
//! proved here: [`step_down`] and [`step_up`] state what that crate does.

use ratatui::widgets::ListState;
use vstd::prelude::*;

verus! {

/// The index one step down from `selected`: the first entry when nothing is
/// selected, and no further than the largest index there is.
pub open spec fn following(selected: Option<usize>) -> usize {
    match selected {
        Some(i) => if i < usize::MAX {
            (i + 1) as usize
        } else {
            i
        },
        None => 0,
    }
}

/// The index one step up from `selected`: the largest index there is when
/// nothing is selected, and no further than the first entry.
pub open spec fn preceding(selected: Option<usize>) -> usize {
    match selected {
        Some(i) => if i > 0 {
            (i - 1) as usize
        } else {
            i
        },
        None => usize::MAX,
    }
}

/// `selected` brought back into a listing of `len` entries: nothing in an
/// empty listing, the last entry for an index beyond it.
pub open spec fn clamped(selected: Option<usize>, len: nat) -> Option<usize> {
    match selected {
        Some(i) => if len == 0 {
            None
        } else if i >= len {
            Some((len - 1) as usize)
        } else {
            selected
        },
        None => None,
    }
}

/// `ListState::select_next` on a list state that selects `selected`: the
/// state then selects the [`following`] index.
#[verifier::external_body]
pub(crate) fn step_down(selected: Option<usize>) -> (next: Option<usize>)
    ensures
        next == Some(following(selected)),
{
    let mut state = ListState::default().with_selected(selected);
    state.select_next();
    state.selected()
}

/// `ListState::select_previous` on a list state that selects `selected`: the
/// state then selects the [`preceding`] index.
#[verifier::external_body]
pub(crate) fn step_up(selected: Option<usize>) -> (previous: Option<usize>)
    ensures
        previous == Some(preceding(selected)),
{
    let mut state = ListState::default().with_selected(selected);
    state.select_previous();
    state.selected()
}

/// Brings `selected` back into a listing of `len` entries.
pub fn clamp(selected: Option<usize>, len: usize) -> (kept: Option<usize>)
    ensures
        kept == clamped(selected, len as nat),
{
    match selected {
        Some(i) => if len == 0 {
            None
        } else if i >= len {
            Some(len - 1)
        } else {
            selected
        },
        None => None,
    }
}

} // verus!
