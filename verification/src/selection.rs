//! Moving the highlight through a list, one row at a time.

use vstd::prelude::*;

verus! {

/// Where the highlight goes on "down", before the list's length is taken
/// into account: to the first row when nothing is highlighted, else one
/// row further, never past the largest index there is.
pub open spec fn next_index(selected: Option<usize>) -> Option<usize> {
    match selected {
        None => Some(0usize),
        Some(i) => if i < usize::MAX {
            Some((i + 1) as usize)
        } else {
            Some(i)
        },
    }
}

/// Where the highlight goes on "up", before the list's length is taken into
/// account: to the largest index there is when nothing is highlighted (the
/// last row, once held to the list), else one row back, never before the
/// first.
pub open spec fn previous_index(selected: Option<usize>) -> Option<usize> {
    match selected {
        None => Some(usize::MAX),
        Some(i) => if i > 0 {
            Some((i - 1) as usize)
        } else {
            Some(i)
        },
    }
}

/// A highlight held to a list of `len` rows: none on an empty list, the last
/// row where it pointed past the end.
pub open spec fn held_to(selected: Option<usize>, len: nat) -> Option<usize> {
    match selected {
        None => None,
        Some(i) => if len == 0 {
            None
        } else if i >= len {
            Some((len - 1) as usize)
        } else {
            Some(i)
        },
    }
}

/// `ratatui::widgets::ListState::select_next`, on a state that holds
/// `selected`: the first row when none is selected, else the saturating
/// successor of the selected index.
#[verifier::external_body]
fn list_select_next(selected: Option<usize>) -> (next: Option<usize>)
    ensures
        next == next_index(selected),
{
    let mut state = ratatui::widgets::ListState::default().with_selected(selected);
    state.select_next();
    state.selected()
}

/// `ratatui::widgets::ListState::select_previous`, on a state that holds
/// `selected`: `usize::MAX` when none is selected, else the saturating
/// predecessor of the selected index.
#[verifier::external_body]
fn list_select_previous(selected: Option<usize>) -> (previous: Option<usize>)
    ensures
        previous == previous_index(selected),
{
    let mut state = ratatui::widgets::ListState::default().with_selected(selected);
    state.select_previous();
    state.selected()
}

/// Holds a highlight to a list of `len` rows.
pub fn hold_to(selected: Option<usize>, len: usize) -> (held: Option<usize>)
    ensures
        held == held_to(selected, len as nat),
        held matches Some(i) ==> i < len,
{
    match selected {
        None => None,
        Some(i) => {
            if len == 0 {
                None
            } else if i >= len {
                Some(len - 1)
            } else {
                Some(i)
            }
        },
    }
}

/// The highlight after "down" in a list of `len` rows.
pub fn step_down(selected: Option<usize>, len: usize) -> (moved: Option<usize>)
    ensures
        moved == held_to(next_index(selected), len as nat),
        moved matches Some(i) ==> i < len,
{
    hold_to(list_select_next(selected), len)
}

/// The highlight after "up" in a list of `len` rows.
pub fn step_up(selected: Option<usize>, len: usize) -> (moved: Option<usize>)
    ensures
        moved == held_to(previous_index(selected), len as nat),
        moved matches Some(i) ==> i < len,
{
    hold_to(list_select_previous(selected), len)
}

} // verus!
