use chessboard_ui::board::{MoveInfo, Occupant, PieceKind, Side};
use chessboard_ui::controller::{transition, ClickAction, SelectionState};

fn mv(origin: u8, target: u8, captured: Occupant) -> MoveInfo {
    MoveInfo { origin, target, captured }
}

#[test]
fn idle_click_on_occupied_square_selects_it() {
    let moves: Vec<MoveInfo> = vec![];
    let (next, action) = transition(SelectionState::Idle, 12, true, &moves);
    assert_eq!(next, SelectionState::Selected(12));
    assert_eq!(action, ClickAction::ShowCurrent);
}

#[test]
fn idle_click_on_empty_square_stays_idle() {
    let moves: Vec<MoveInfo> = vec![];
    let (next, action) = transition(SelectionState::Idle, 20, false, &moves);
    assert_eq!(next, SelectionState::Idle);
    assert_eq!(action, ClickAction::Clear);
}

#[test]
fn clicking_the_selected_square_toggles_off() {
    let moves = vec![mv(12, 20, Occupant::Empty)];
    let (next, action) = transition(SelectionState::Selected(12), 12, true, &moves);
    assert_eq!(next, SelectionState::Idle);
    assert_eq!(action, ClickAction::Clear);
}

#[test]
fn clicking_a_legal_target_commits_the_move() {
    let moves = vec![mv(12, 20, Occupant::Empty), mv(12, 28, Occupant::Empty)];
    let (next, action) = transition(SelectionState::Selected(12), 28, false, &moves);
    assert_eq!(next, SelectionState::Selected(28));
    assert_eq!(action, ClickAction::Commit(1));
}

#[test]
fn ties_break_to_the_first_matching_move() {
    // Several moves share origin and target (distinct promotion choices):
    // the first in the engine's order is the one committed.
    let q = Occupant::Piece(PieceKind::Queen, Side::Black);
    let moves = vec![
        mv(11, 19, Occupant::Empty),
        mv(52, 60, q),
        mv(52, 60, q),
        mv(52, 60, q),
    ];
    let (next, action) = transition(SelectionState::Selected(52), 60, true, &moves);
    assert_eq!(next, SelectionState::Selected(60));
    assert_eq!(action, ClickAction::Commit(1));
}

#[test]
fn clicking_elsewhere_reselects() {
    let moves = vec![mv(12, 20, Occupant::Empty)];
    // Occupied square without a matching move: select it and show its moves.
    let (next, action) = transition(SelectionState::Selected(12), 13, true, &moves);
    assert_eq!(next, SelectionState::Selected(13));
    assert_eq!(action, ClickAction::ShowCurrent);
    // Empty square without a matching move: select it, nothing to show.
    let (next, action) = transition(SelectionState::Selected(12), 21, false, &moves);
    assert_eq!(next, SelectionState::Selected(21));
    assert_eq!(action, ClickAction::Clear);
}
