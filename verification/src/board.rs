//! Plain-value model of what the interaction logic reads from a chess
//! position: the side to move, the occupant of each of the 64 squares, and
//! the legal moves as (origin, target, captured-occupant) triples.
//!
//! Squares are engine-indexed: index `rank * 8 + file` with rank 0 being
//! rank 1 (White's near rank) and file 0 being the a-file.

use vstd::prelude::*;

verus! {

/// The side to move, or the owner of a piece.
#[derive(Clone, Copy, Debug, PartialEq, Eq, Structural)]
pub enum Side {
    White,
    Black,
}

/// A piece kind, without its owner.
#[derive(Clone, Copy, Debug, PartialEq, Eq, Structural)]
pub enum PieceKind {
    Pawn,
    Knight,
    Bishop,
    Rook,
    Queen,
    King,
}

/// What a single square holds.
#[derive(Clone, Copy, Debug, PartialEq, Eq, Structural)]
pub enum Occupant {
    Empty,
    Piece(PieceKind, Side),
}

/// One legal move, as handed out by the rules engine: origin and target
/// square indices in [0, 64), and the occupant of the target square before
/// the move (`Empty` for a quiet move).
#[derive(Clone, Copy, Debug, PartialEq, Eq, Structural)]
pub struct MoveInfo {
    pub origin: u8,
    pub target: u8,
    pub captured: Occupant,
}

pub open spec fn opposite(s: Side) -> Side {
    match s {
        Side::White => Side::Black,
        Side::Black => Side::White,
    }
}

/// The back-rank piece kind on the given file in the starting position.
pub open spec fn back_rank_kind(file: int) -> PieceKind {
    if file == 0 || file == 7 {
        PieceKind::Rook
    } else if file == 1 || file == 6 {
        PieceKind::Knight
    } else if file == 2 || file == 5 {
        PieceKind::Bishop
    } else if file == 3 {
        PieceKind::Queen
    } else {
        PieceKind::King
    }
}

/// The occupant of square `i` in the standard starting position.
pub open spec fn start_cell(i: int) -> Occupant {
    if 0 <= i < 8 {
        Occupant::Piece(back_rank_kind(i), Side::White)
    } else if 8 <= i < 16 {
        Occupant::Piece(PieceKind::Pawn, Side::White)
    } else if 48 <= i < 56 {
        Occupant::Piece(PieceKind::Pawn, Side::Black)
    } else if 56 <= i < 64 {
        Occupant::Piece(back_rank_kind(i - 56), Side::Black)
    } else {
        Occupant::Empty
    }
}

/// The 64 occupants of the standard starting position, engine-indexed.
pub open spec fn start_cells() -> Seq<Occupant> {
    Seq::new(64, |i: int| start_cell(i))
}

/// The single-letter label drawn for a piece kind.
pub open spec fn kind_glyph(k: PieceKind) -> char {
    match k {
        PieceKind::Pawn => 'P',
        PieceKind::Knight => 'N',
        PieceKind::Bishop => 'B',
        PieceKind::Rook => 'R',
        PieceKind::Queen => 'Q',
        PieceKind::King => 'K',
    }
}

/// The glyph drawn for a square's occupant: a piece letter, or a dot for an
/// empty square.
pub fn occupant_glyph(o: Occupant) -> (c: char)
    ensures
        c == match o {
            Occupant::Empty => '.',
            Occupant::Piece(k, _) => kind_glyph(k),
        },
{
    match o {
        Occupant::Empty => '.',
        Occupant::Piece(PieceKind::Pawn, _) => 'P',
        Occupant::Piece(PieceKind::Knight, _) => 'N',
        Occupant::Piece(PieceKind::Bishop, _) => 'B',
        Occupant::Piece(PieceKind::Rook, _) => 'R',
        Occupant::Piece(PieceKind::Queen, _) => 'Q',
        Occupant::Piece(PieceKind::King, _) => 'K',
    }
}

} // verus!
