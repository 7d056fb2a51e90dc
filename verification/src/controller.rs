//! The move-selection state machine.
//!
//! Clicks arrive as board squares; against the occupant of the clicked
//! square and the current legal-move list, a click either selects a square,
//! toggles the selection off, or commits the first legal move from the
//! selected origin to the clicked target. The transition itself is a pure
//! function; committing the move and recomputing highlights are carried out
//! by the caller, as the returned `ClickAction` directs.

use vstd::prelude::*;
use crate::board::MoveInfo;
use crate::highlight::goes;

verus! {

/// Whether a square is currently selected.
#[derive(Clone, Copy, Debug, PartialEq, Eq, Structural)]
pub enum SelectionState {
    Idle,
    Selected(u8),
}

/// What the caller must do after a click.
#[derive(Clone, Copy, Debug, PartialEq, Eq, Structural)]
pub enum ClickAction {
    /// Clear the highlight overlays.
    Clear,
    /// Recompute the highlights from the current position for the clicked
    /// square.
    ShowCurrent,
    /// Commit the move at this index of the current legal-move list, then
    /// recompute the highlights from the new position for the clicked
    /// square.
    Commit(usize),
}

/// Whether some legal move goes from `o` to `t`.
pub open spec fn has_move(moves: Seq<MoveInfo>, o: u8, t: u8) -> bool {
    exists|i: int| goes(moves, i, o, t)
}

/// Whether `i` is the index of the first legal move from `o` to `t`.
pub open spec fn is_first_match(moves: Seq<MoveInfo>, o: u8, t: u8, i: int) -> bool {
    &&& goes(moves, i, o, t)
    &&& forall|j: int| 0 <= j < i ==> !(moves[j].origin == o && (#[trigger] moves[j]).target == t)
}

/// The selection state after a click on square `s`, given whether `s` is
/// occupied and the current legal-move list.
pub open spec fn spec_transition(
    state: SelectionState,
    s: u8,
    occupied: bool,
    moves: Seq<MoveInfo>,
) -> SelectionState {
    match state {
        SelectionState::Idle => if occupied {
            SelectionState::Selected(s)
        } else {
            SelectionState::Idle
        },
        SelectionState::Selected(o) => if s == o {
            SelectionState::Idle
        } else {
            SelectionState::Selected(s)
        },
    }
}

/// Finds the first legal move from `o` to `t`, if any.
pub fn find_first_move(moves: &Vec<MoveInfo>, o: u8, t: u8) -> (r: Option<usize>)
    ensures
        match r {
            Some(i) => is_first_match(moves@, o, t, i as int),
            None => !has_move(moves@, o, t),
        },
{
    let mut i: usize = 0;
    while i < moves.len()
        invariant
            0 <= i <= moves@.len(),
            forall|j: int| 0 <= j < i
                ==> !(moves@[j].origin == o && (#[trigger] moves@[j]).target == t),
        decreases moves@.len() - i,
    {
        if moves[i].origin == o && moves[i].target == t {
            assert(goes(moves@, i as int, o, t));
            return Some(i);
        }
        i = i + 1;
    }
    assert forall|j: int| !goes(moves@, j, o, t) by {}
    None
}

/// Processes one click, purely: returns the next selection state and the
/// action the caller must carry out.
///
/// From `Idle`, clicking an occupied square selects it and shows its moves;
/// clicking an empty square does nothing. From `Selected(o)`, clicking `o`
/// again toggles the selection off; clicking a target of a legal move from
/// `o` commits the first such move in list order; any other click moves the
/// selection to the clicked square, showing its moves only if it is
/// occupied.
pub fn transition(
    state: SelectionState,
    s: u8,
    occupied: bool,
    moves: &Vec<MoveInfo>,
) -> (r: (SelectionState, ClickAction))
    ensures
        r.0 == spec_transition(state, s, occupied, moves@),
        match state {
            SelectionState::Idle => r.1 == if occupied {
                ClickAction::ShowCurrent
            } else {
                ClickAction::Clear
            },
            SelectionState::Selected(o) => {
                if s == o {
                    r.1 == ClickAction::Clear
                } else if has_move(moves@, o, s) {
                    r.1 matches ClickAction::Commit(i) && is_first_match(moves@, o, s, i as int)
                } else {
                    r.1 == if occupied {
                        ClickAction::ShowCurrent
                    } else {
                        ClickAction::Clear
                    }
                }
            },
        },
{
    match state {
        SelectionState::Idle => {
            if occupied {
                (SelectionState::Selected(s), ClickAction::ShowCurrent)
            } else {
                (SelectionState::Idle, ClickAction::Clear)
            }
        },
        SelectionState::Selected(o) => {
            if s == o {
                (SelectionState::Idle, ClickAction::Clear)
            } else {
                match find_first_move(moves, o, s) {
                    Some(i) => (SelectionState::Selected(s), ClickAction::Commit(i)),
                    None => {
                        if occupied {
                            (SelectionState::Selected(s), ClickAction::ShowCurrent)
                        } else {
                            (SelectionState::Selected(s), ClickAction::Clear)
                        }
                    },
                }
            }
        },
    }
}

/// Selection toggling: from `Idle`, a click on an occupied square `s`
/// selects `s`, and a further click on `s` — whatever the occupancy and the
/// legal moves by then — returns the selection to `Idle`.
pub proof fn lemma_selection_toggle(
    s: u8,
    moves1: Seq<MoveInfo>,
    occupied2: bool,
    moves2: Seq<MoveInfo>,
)
    ensures
        spec_transition(SelectionState::Idle, s, true, moves1) == SelectionState::Selected(s),
        spec_transition(
            spec_transition(SelectionState::Idle, s, true, moves1),
            s,
            occupied2,
            moves2,
        ) == SelectionState::Idle,
{
}

} // verus!
