//! The interactive session: a non-empty history of position snapshots, the
//! selection state, and the highlight overlays, driven by pointer clicks.
//!
//! The history is append-only: committing a move pushes a freshly derived
//! position, and stepping back pops one as long as more than one remains.
//! The position at the top of the history is never mutated in place.

use vstd::prelude::*;
use crate::board::{Occupant, Side, opposite, start_cells};
use crate::controller::{ClickAction, SelectionState, has_move, is_first_match, spec_transition, transition};
use crate::coords::{spec_to_square, to_square};
use crate::engine::{apply_nth, board_after, board_cells, board_moves, board_turn, initial_board, legal_moves, occupant_grid, side_to_move};
use crate::highlight::HighlightSets;
use crate::highlight::project;

verus! {

/// The whole interactive state around the rules engine.
pub struct GameUi {
    /// The positions reached so far; always non-empty, newest last.
    pub history: Vec<chess::Board>,
    /// The square the user has selected, if any.
    pub selection: SelectionState,
    /// The highlight overlays for the current selection.
    pub highlights: HighlightSets,
}

impl GameUi {
    /// The one invariant of the session: the history never becomes empty.
    pub open spec fn wf(&self) -> bool {
        self.history@.len() >= 1
    }

    /// The current position: the newest history entry.
    pub open spec fn top(&self) -> chess::Board {
        self.history@.last()
    }

    /// Whether square `s` of the current position holds a piece.
    pub open spec fn occupied_at(&self, s: u8) -> bool {
        board_cells(self.top())[s as int] != Occupant::Empty
    }

    /// Starts a session at the standard starting position, nothing selected.
    pub fn new() -> (g: GameUi)
        ensures
            g.wf(),
            g.history@.len() == 1,
            board_cells(g.top()) == start_cells(),
            board_turn(g.top()) == Side::White,
            g.selection == SelectionState::Idle,
            g.highlights.is_empty(),
    {
        let b = initial_board();
        let mut history: Vec<chess::Board> = Vec::new();
        history.push(b);
        GameUi { history, selection: SelectionState::Idle, highlights: HighlightSets::cleared() }
    }

    /// How many positions the history holds.
    pub fn position_count(&self) -> (n: usize)
        ensures
            n == self.history@.len(),
    {
        self.history.len()
    }

    /// The 64 occupants of the current position, engine-indexed.
    pub fn grid(&self) -> (v: Vec<Occupant>)
        requires
            self.wf(),
        ensures
            v@ == board_cells(self.top()),
            v@.len() == 64,
    {
        occupant_grid(&self.history[self.history.len() - 1])
    }

    /// The current position itself, for callers that hand it to the
    /// game-tree verifier.
    pub fn current(&self) -> (b: chess::Board)
        requires
            self.wf(),
        ensures
            b == self.top(),
    {
        self.history[self.history.len() - 1]
    }

    /// The side to move at the current position.
    pub fn turn(&self) -> (s: Side)
        requires
            self.wf(),
        ensures
            s == board_turn(self.top()),
    {
        side_to_move(&self.history[self.history.len() - 1])
    }

    /// Everything one processed click changes, relating the state before
    /// the click (`pre`) to the state after it (`post`).
    ///
    /// The selection steps as the selection state machine directs. The
    /// history grows by exactly one position when the click commits a move —
    /// the first legal move, in the engine's order, from the selected origin
    /// to `s` — and is untouched otherwise. The highlight overlays are
    /// recomputed from scratch: after a commit they are derived for `s` from
    /// the new position, after a plain selection from the current one, and
    /// they are empty whenever nothing highlightable is selected.
    pub open spec fn click_post(pre: GameUi, post: GameUi, s: u8) -> bool {
        &&& post.selection == spec_transition(
            pre.selection,
            s,
            pre.occupied_at(s),
            board_moves(pre.top()),
        )
        &&& match pre.selection {
            SelectionState::Idle => {
                &&& post.history@ == pre.history@
                &&& if pre.occupied_at(s) {
                    post.highlights.derived_from(board_moves(pre.top()), s)
                } else {
                    post.highlights.is_empty()
                }
            },
            SelectionState::Selected(o) => {
                if s == o {
                    post.history@ == pre.history@ && post.highlights.is_empty()
                } else if has_move(board_moves(pre.top()), o, s) {
                    exists|i: int|
                        {
                            &&& #[trigger] is_first_match(board_moves(pre.top()), o, s, i)
                            &&& post.history@ == pre.history@.push(board_after(pre.top(), i))
                            &&& board_turn(post.top()) == opposite(board_turn(pre.top()))
                            &&& post.highlights.derived_from(
                                board_moves(board_after(pre.top(), i)),
                                s,
                            )
                        }
                } else {
                    &&& post.history@ == pre.history@
                    &&& if pre.occupied_at(s) {
                        post.highlights.derived_from(board_moves(pre.top()), s)
                    } else {
                        post.highlights.is_empty()
                    }
                }
            },
        }
    }

    /// Processes a click on square `s`, as `click_post` describes.
    pub fn on_click(&mut self, s: u8)
        requires
            s < 64,
            old(self).wf(),
        ensures
            final(self).wf(),
            GameUi::click_post(*old(self), *final(self), s),
    {
        let top: chess::Board = self.history[self.history.len() - 1];
        let grid = occupant_grid(&top);
        let occupied = grid[s as usize] != Occupant::Empty;
        let moves = legal_moves(&top);
        let (next, action) = transition(self.selection, s, occupied, &moves);
        self.selection = next;
        match action {
            ClickAction::Clear => {
                self.highlights = HighlightSets::cleared();
            },
            ClickAction::ShowCurrent => {
                self.highlights = project(&moves, s);
            },
            ClickAction::Commit(i) => {
                let nb = apply_nth(&top, i);
                self.history.push(nb);
                let nmoves = legal_moves(&nb);
                self.highlights = project(&nmoves, s);
            },
        }
    }

    /// Maps a pointer position to a square and processes it as a click.
    pub fn on_pointer_down(&mut self, px: u32, py: u32, vw: u32, vh: u32)
        requires
            vw >= 8,
            vh >= 8,
            old(self).wf(),
        ensures
            final(self).wf(),
            GameUi::click_post(
                *old(self),
                *final(self),
                spec_to_square(px as int, py as int, vw as int, vh as int) as u8,
            ),
    {
        let s = to_square(px, py, vw, vh);
        self.on_click(s);
    }

    /// Steps back to the previous position, unless only the starting one is
    /// left; the selection and the highlights are reset either way.
    pub fn on_step_back(&mut self)
        requires
            old(self).wf(),
        ensures
            final(self).wf(),
            final(self).selection == SelectionState::Idle,
            final(self).highlights.is_empty(),
            old(self).history@.len() > 1 ==> final(self).history@ == old(self).history@.drop_last(),
            old(self).history@.len() == 1 ==> final(self).history@ == old(self).history@,
    {
        if self.history.len() > 1 {
            self.history.pop();
        }
        self.selection = SelectionState::Idle;
        self.highlights = HighlightSets::cleared();
    }
}

} // verus!
