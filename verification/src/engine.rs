//! The boundary to the external rules engine (the `chess` crate).
//!
//! A `chess::Board` is an opaque position snapshot. Everything the verified
//! logic knows of one is phrased through four uninterpreted observation
//! functions — its side to move, its 64 occupants, its ordered legal-move
//! list, and the position reached by one of those moves — and the trusted
//! wrappers below, which relate the engine's answers to those observations.
//! Each observation is a function of the position value alone: the engine's
//! move generation and move application are deterministic.

use vstd::prelude::*;
use crate::board::{MoveInfo, Occupant, PieceKind, Side, start_cells, opposite};

verus! {

#[verifier::external_type_specification]
#[verifier::external_body]
pub struct ExBoard(chess::Board);

#[verifier::external_type_specification]
#[verifier::external_body]
pub struct ExPiece(chess::Piece);

#[verifier::external_type_specification]
#[verifier::external_body]
pub struct ExColor(chess::Color);

/// The side to move at position `b`.
pub uninterp spec fn board_turn(b: chess::Board) -> Side;

/// The occupants of the 64 squares of position `b`, engine-indexed.
pub uninterp spec fn board_cells(b: chess::Board) -> Seq<Occupant>;

/// The legal moves at position `b` for the side to move, in the engine's
/// stable generation order.
pub uninterp spec fn board_moves(b: chess::Board) -> Seq<MoveInfo>;

/// The position reached from `b` by its `i`-th legal move, with the side to
/// move switched.
pub uninterp spec fn board_after(b: chess::Board, i: int) -> chess::Board;

/// Relies on `chess::Board::default`: the standard starting position
/// (`rnbqkbnr/pppppppp/8/8/8/8/PPPPPPPP/RNBQKBNR w KQkq - 0 1`), so White is
/// to move and the 64 occupants are the standard starting array.
#[verifier::external_body]
pub fn initial_board() -> (b: chess::Board)
    ensures
        board_turn(b) == Side::White,
        board_cells(b) == start_cells(),
{
    chess::Board::default()
}

/// Relies on `chess::Board::side_to_move`.
#[verifier::external_body]
pub fn side_to_move(b: &chess::Board) -> (s: Side)
    ensures
        s == board_turn(*b),
{
    match b.side_to_move() {
        chess::Color::White => Side::White,
        chess::Color::Black => Side::Black,
    }
}

/// Relies on `chess::Board::piece_on` and `chess::Board::color_on`: the piece
/// kind and owner on a square, both `None` exactly when the square is empty.
/// `chess::ALL_SQUARES` lists the 64 squares in engine-index order
/// (rank-major, rank 1 first).
#[verifier::external_body]
pub fn occupant_grid(b: &chess::Board) -> (v: Vec<Occupant>)
    ensures
        v@ == board_cells(*b),
        v@.len() == 64,
{
    chess::ALL_SQUARES
        .iter()
        .map(|sq| match (b.piece_on(*sq), b.color_on(*sq)) {
            (Some(p), Some(c)) => Occupant::Piece(kind_from(p), side_from(c)),
            _ => Occupant::Empty,
        })
        .collect()
}

/// Relies on `chess::MoveGen::new_legal`: the legal moves of the side to
/// move, in the generator's deterministic order; every move's source and
/// destination are valid squares (`to_index` < 64), and the recorded captured
/// occupant is whatever sits on the destination square before the move
/// (`Empty` for a quiet move; an en-passant destination square is empty).
#[verifier::external_body]
pub fn legal_moves(b: &chess::Board) -> (v: Vec<MoveInfo>)
    ensures
        v@ == board_moves(*b),
        forall|i: int| 0 <= i < v@.len() ==> {
            &&& v@[i].origin < 64
            &&& v@[i].target < 64
            &&& v@[i].captured == board_cells(*b)[v@[i].target as int]
        },
{
    chess::MoveGen::new_legal(b)
        .map(|m: chess::ChessMove| MoveInfo {
            origin: m.get_source().to_index() as u8,
            target: m.get_dest().to_index() as u8,
            captured: match (b.piece_on(m.get_dest()), b.color_on(m.get_dest())) {
                (Some(p), Some(c)) => Occupant::Piece(kind_from(p), side_from(c)),
                _ => Occupant::Empty,
            },
        })
        .collect()
}

/// Relies on `chess::MoveGen::new_legal` (same deterministic order as
/// `legal_moves`) and `chess::Board::make_move_new`: applying a legal move
/// yields the resulting position with the side to move switched.
#[verifier::external_body]
pub fn apply_nth(b: &chess::Board, i: usize) -> (r: chess::Board)
    requires
        i < board_moves(*b).len(),
    ensures
        r == board_after(*b, i as int),
        board_turn(r) == opposite(board_turn(*b)),
{
    let m = chess::MoveGen::new_legal(b).nth(i).expect("index within the legal-move list");
    b.make_move_new(m)
}

/// Relies only on telling `chess::Piece`'s variants apart.
#[verifier::external_body]
fn kind_from(p: chess::Piece) -> PieceKind {
    match p {
        chess::Piece::Pawn => PieceKind::Pawn,
        chess::Piece::Knight => PieceKind::Knight,
        chess::Piece::Bishop => PieceKind::Bishop,
        chess::Piece::Rook => PieceKind::Rook,
        chess::Piece::Queen => PieceKind::Queen,
        chess::Piece::King => PieceKind::King,
    }
}

/// Relies only on telling `chess::Color`'s variants apart.
#[verifier::external_body]
fn side_from(c: chess::Color) -> Side {
    match c {
        chess::Color::White => Side::White,
        chess::Color::Black => Side::Black,
    }
}

} // verus!
