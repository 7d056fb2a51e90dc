use chessboard_ui::board::{MoveInfo, Occupant, PieceKind, Side};
use chessboard_ui::highlight::project;

fn mv(origin: u8, target: u8, captured: Occupant) -> MoveInfo {
    MoveInfo { origin, target, captured }
}

fn pawn(side: Side) -> Occupant {
    Occupant::Piece(PieceKind::Pawn, side)
}

fn sorted(mut v: Vec<u8>) -> Vec<u8> {
    v.sort();
    v
}

#[test]
fn partitions_by_capture_status() {
    let moves = vec![
        mv(12, 20, Occupant::Empty),
        mv(12, 28, Occupant::Empty),
        mv(12, 21, pawn(Side::Black)),
        mv(13, 29, Occupant::Empty),
    ];
    let h = project(&moves, 12);
    assert_eq!(sorted(h.quiet), vec![20, 28]);
    assert_eq!(sorted(h.capture), vec![21]);
}

#[test]
fn moves_from_other_origins_are_ignored() {
    let moves = vec![mv(13, 29, Occupant::Empty), mv(13, 21, pawn(Side::Black))];
    let h = project(&moves, 12);
    assert!(h.quiet.is_empty());
    assert!(h.capture.is_empty());
}

#[test]
fn capture_status_wins_on_a_shared_target() {
    // Two moves into the same target, one quiet and one capturing: the
    // target counts as a capture target only.
    let moves = vec![mv(12, 21, Occupant::Empty), mv(12, 21, pawn(Side::Black))];
    let h = project(&moves, 12);
    assert!(h.quiet.is_empty());
    assert_eq!(sorted(h.capture), vec![21]);
}

#[test]
fn quiet_and_capture_sets_partition_all_targets() {
    let moves = vec![
        mv(3, 10, Occupant::Empty),
        mv(3, 11, pawn(Side::White)),
        mv(3, 12, Occupant::Empty),
        mv(3, 12, pawn(Side::White)),
        mv(4, 12, Occupant::Empty),
        mv(3, 10, Occupant::Empty),
    ];
    let h = project(&moves, 3);
    let quiet = sorted(h.quiet);
    let capture = sorted(h.capture);
    // Disjoint.
    for t in quiet.iter() {
        assert!(!capture.contains(t));
    }
    // Union is every target reachable from the origin.
    let mut union: Vec<u8> = quiet.clone();
    union.extend(capture.iter().cloned());
    union.sort();
    union.dedup();
    assert_eq!(union, vec![10, 11, 12]);
}
