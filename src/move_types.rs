//! The representation of a move and its projection onto squares.
use vstd::prelude::*;
use crate::piece::{home_rank_of, opposite_of, Color, Piece, PieceType};
use crate::square::SquareSpec;

verus! {

/// The general type to represent moves.
#[derive(Copy, Clone, Debug, PartialEq, Eq, Structural, Hash)]
pub enum Move {
    /// A move between two squares: every move that is neither castling nor
    /// promotion, en passant included.
    Normal { from: SquareSpec, to: SquareSpec },
    /// Castling moves two pieces and names no square.
    Castling(Castling),
    /// A pawn reaching the last rank, with the kind of piece it becomes.
    Promotion { from: SquareSpec, to: SquareSpec, target: PieceType },
}

/// The two ways to castle.
#[derive(Copy, Clone, Debug, PartialEq, Eq, Structural, Hash)]
pub enum Castling {
    /// Castling king-side.
    Short,
    /// Castling queen-side.
    Long,
}

/// The file the king lands on when castling to `side`.
pub open spec fn castle_king_file(side: Castling) -> int {
    match side {
        Castling::Short => 6,
        Castling::Long => 2,
    }
}

/// What `Move::new` builds for `piece` going from `from` to `to`.
pub open spec fn classify_move(piece: Piece, from: SquareSpec, to: SquareSpec) -> Option<Move> {
    let d_file = to.file as int - from.file as int;
    if piece.piece == PieceType::King && d_file == 2 {
        Some(Move::Castling(Castling::Short))
    } else if piece.piece == PieceType::King && d_file == -2 {
        Some(Move::Castling(Castling::Long))
    } else if piece.piece == PieceType::Pawn && to.rank as int == home_rank_of(
        opposite_of(piece.color),
    ) {
        None
    } else {
        Some(Move::Normal { from, to })
    }
}

impl Move {
    /// The square a move of side `color` starts from.
    pub open spec fn spec_from(self, color: Color) -> SquareSpec {
        match self {
            Move::Normal { from, .. } => from,
            Move::Promotion { from, .. } => from,
            Move::Castling(_) => SquareSpec { rank: home_rank_of(color) as u8, file: 4 },
        }
    }

    /// The square a move of side `color` ends on.
    pub open spec fn spec_to(self, color: Color) -> SquareSpec {
        match self {
            Move::Normal { to, .. } => to,
            Move::Promotion { to, .. } => to,
            Move::Castling(c) => SquareSpec {
                rank: home_rank_of(color) as u8,
                file: castle_king_file(c) as u8,
            },
        }
    }

    /// Builds the move of `piece` from `from` to `to`: castling where a king
    /// moves two files, nothing where a pawn reaches the last rank (a
    /// promotion needs its target named), a normal move otherwise.
    pub fn new(piece: Piece, from: SquareSpec, to: SquareSpec) -> (r: Option<Move>)
        requires
            from.wf(),
            to.wf(),
        ensures
            r == classify_move(piece, from, to),
    {
        let d = to.diff(from);
        if piece.piece == PieceType::King && d.d_file == 2 {
            Some(Move::Castling(Castling::Short))
        } else if piece.piece == PieceType::King && d.d_file == -2 {
            Some(Move::Castling(Castling::Long))
        } else if piece.piece == PieceType::Pawn && to.rank == piece.color.opposite().home_rank() {
            None
        } else {
            Some(Move::Normal { from, to })
        }
    }

    /// The `from` square of the move, for a move of side `color`.
    pub fn from(&self, color: Color) -> (r: SquareSpec)
        ensures
            r == self.spec_from(color),
    {
        match self {
            Move::Normal { from, .. } | Move::Promotion { from, .. } => *from,
            Move::Castling(_) => {
                let rank = color.home_rank();
                SquareSpec::new(rank, 4)
            },
        }
    }

    /// The destination of the move, for a move of side `color`.
    pub fn to(&self, color: Color) -> (r: SquareSpec)
        ensures
            r == self.spec_to(color),
    {
        match self {
            Move::Normal { to, .. } | Move::Promotion { to, .. } => *to,
            Move::Castling(c) => {
                let rank = color.home_rank();
                let kt: u8 = match c {
                    Castling::Short => 6,
                    Castling::Long => 2,
                };
                SquareSpec::new(rank, kt)
            },
        }
    }
}

/// The letter of file `f`, from 'a'.
pub open spec fn file_char(f: int) -> char {
    if f == 0 {
        'a'
    } else if f == 1 {
        'b'
    } else if f == 2 {
        'c'
    } else if f == 3 {
        'd'
    } else if f == 4 {
        'e'
    } else if f == 5 {
        'f'
    } else if f == 6 {
        'g'
    } else {
        'h'
    }
}

/// The digit of rank `r`, from '1'.
pub open spec fn rank_char(r: int) -> char {
    if r == 0 {
        '1'
    } else if r == 1 {
        '2'
    } else if r == 2 {
        '3'
    } else if r == 3 {
        '4'
    } else if r == 4 {
        '5'
    } else if r == 5 {
        '6'
    } else if r == 6 {
        '7'
    } else {
        '8'
    }
}

/// The letter that names a kind of piece.
pub open spec fn piece_letter(t: PieceType) -> char {
    match t {
        PieceType::Pawn => 'P',
        PieceType::Knight => 'N',
        PieceType::Bishop => 'B',
        PieceType::Rook => 'R',
        PieceType::Queen => 'Q',
        PieceType::King => 'K',
    }
}

/// The name of a square, such as "e4".
pub open spec fn square_name(s: SquareSpec) -> Seq<char> {
    seq![file_char(s.file as int), rank_char(s.rank as int)]
}

/// The algebraic-style text of a move: "e2e4", "O-O", "O-O-O", "e7e8=Q".
pub open spec fn notation_of(m: Move) -> Seq<char> {
    match m {
        Move::Normal { from, to } => square_name(from) + square_name(to),
        Move::Castling(Castling::Short) => seq!['O', '-', 'O'],
        Move::Castling(Castling::Long) => seq!['O', '-', 'O', '-', 'O'],
        Move::Promotion { from, to, target } => square_name(from) + square_name(to) + seq![
            '=',
            piece_letter(target),
        ],
    }
}

/// Relies on `String::push`: appends one character to the string.
#[verifier::external_body]
fn push_char(s: &mut String, c: char)
    ensures
        final(s)@ == old(s)@.push(c),
{
    s.push(c);
}

fn file_letter(f: u8) -> (c: char)
    ensures
        c == file_char(f as int),
{
    match f {
        0 => 'a',
        1 => 'b',
        2 => 'c',
        3 => 'd',
        4 => 'e',
        5 => 'f',
        6 => 'g',
        _ => 'h',
    }
}

fn rank_digit(r: u8) -> (c: char)
    ensures
        c == rank_char(r as int),
{
    match r {
        0 => '1',
        1 => '2',
        2 => '3',
        3 => '4',
        4 => '5',
        5 => '6',
        6 => '7',
        _ => '8',
    }
}

impl PieceType {
    /// The letter that names this kind of piece.
    pub fn letter(self) -> (c: char)
        ensures
            c == piece_letter(self),
    {
        match self {
            PieceType::Pawn => 'P',
            PieceType::Knight => 'N',
            PieceType::Bishop => 'B',
            PieceType::Rook => 'R',
            PieceType::Queen => 'Q',
            PieceType::King => 'K',
        }
    }
}

fn push_square(s: &mut String, sq: SquareSpec)
    ensures
        final(s)@ == old(s)@ + square_name(sq),
{
    push_char(s, file_letter(sq.file));
    push_char(s, rank_digit(sq.rank));
    assert(final(s)@ =~= old(s)@ + square_name(sq));
}

impl Move {
    /// The move written out: "e2e4", "O-O", "O-O-O", "e7e8=Q".
    pub fn notation(&self) -> (s: String)
        ensures
            s@ == notation_of(*self),
    {
        let mut s = String::new();
        match self {
            Move::Normal { from, to } => {
                push_square(&mut s, *from);
                push_square(&mut s, *to);
            },
            Move::Castling(side) => {
                push_char(&mut s, 'O');
                push_char(&mut s, '-');
                push_char(&mut s, 'O');
                match side {
                    Castling::Short => {},
                    Castling::Long => {
                        push_char(&mut s, '-');
                        push_char(&mut s, 'O');
                    },
                }
            },
            Move::Promotion { from, to, target } => {
                push_square(&mut s, *from);
                push_square(&mut s, *to);
                push_char(&mut s, '=');
                push_char(&mut s, target.letter());
            },
        }
        assert(s@ =~= notation_of(*self));
        s
    }
}

} // verus!
