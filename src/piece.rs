//! Colors, piece kinds and the per-color rules of pawns and home ranks.
use vstd::prelude::*;

verus! {

/// The two sides.
#[derive(Copy, Clone, Debug, PartialEq, Eq, Structural, Hash)]
pub enum Color {
    White,
    Black,
}

/// The six kinds of piece.
#[derive(Copy, Clone, Debug, PartialEq, Eq, Structural, Hash)]
pub enum PieceType {
    Pawn,
    Knight,
    Bishop,
    Rook,
    Queen,
    King,
}

/// The occupant of a square.
#[derive(Copy, Clone, Debug, PartialEq, Eq, Structural, Hash)]
pub struct Piece {
    pub color: Color,
    pub piece: PieceType,
}

pub open spec fn opposite_of(c: Color) -> Color {
    match c {
        Color::White => Color::Black,
        Color::Black => Color::White,
    }
}

pub open spec fn home_rank_of(c: Color) -> int {
    match c {
        Color::White => 0,
        Color::Black => 7,
    }
}

/// The rank step of a pawn of color `c` moving forward.
pub open spec fn forward_of(c: Color) -> int {
    match c {
        Color::White => 1,
        Color::Black => -1,
    }
}

/// The rank on which the pawns of color `c` start.
pub open spec fn pawn_rank_of(c: Color) -> int {
    home_rank_of(c) + forward_of(c)
}

/// The pieces a pawn may promote to.
pub open spec fn is_promotion_target(t: PieceType) -> bool {
    t == PieceType::Knight || t == PieceType::Bishop || t == PieceType::Rook || t
        == PieceType::Queen
}

impl Color {
    /// The other side.
    pub fn opposite(self) -> (r: Color)
        ensures
            r == opposite_of(self),
    {
        match self {
            Color::White => Color::Black,
            Color::Black => Color::White,
        }
    }

    /// The rank on which this side's king and rooks start.
    pub fn home_rank(self) -> (r: u8)
        ensures
            r as int == home_rank_of(self),
    {
        match self {
            Color::White => 0,
            Color::Black => 7,
        }
    }

    /// The rank step of this side's pawns.
    pub fn forward(self) -> (r: i8)
        ensures
            r as int == forward_of(self),
    {
        match self {
            Color::White => 1,
            Color::Black => -1,
        }
    }
}

impl PieceType {
    /// Whether a pawn may become a piece of this kind.
    pub fn is_promotion_target(self) -> (r: bool)
        ensures
            r == is_promotion_target(self),
    {
        match self {
            PieceType::Knight | PieceType::Bishop | PieceType::Rook | PieceType::Queen => true,
            _ => false,
        }
    }
}

} // verus!
