//! The position: piece placement, side to move, castling rights, en passant
//! target and move counters, with the mechanical effect of a move.
use vstd::prelude::*;
use crate::move_types::{castle_king_file, Castling, Move};
use crate::piece::{home_rank_of, opposite_of, Color, Piece, PieceType};
use crate::square::{index_of, SquareSpec};

verus! {

/// The four castling rights: side to castle to, for each color.
#[derive(Copy, Clone, Debug, PartialEq, Eq, Structural, Hash)]
pub struct CastlingRights {
    pub white_short: bool,
    pub white_long: bool,
    pub black_short: bool,
    pub black_long: bool,
}

/// A position on the board.
#[derive(Debug, PartialEq, Eq)]
pub struct Board {
    /// The 64 squares, rank by rank from White's home rank.
    pub squares: Vec<Option<Piece>>,
    pub turn: Color,
    pub castling: CastlingRights,
    pub en_passant: Option<SquareSpec>,
    pub halfmove_clock: u64,
    pub fullmove_number: u64,
}

/// The mathematical value of a `Board`.
pub struct BoardView {
    pub squares: Seq<Option<Piece>>,
    pub turn: Color,
    pub castling: CastlingRights,
    pub en_passant: Option<SquareSpec>,
    pub halfmove_clock: u64,
    pub fullmove_number: u64,
}

impl View for Board {
    type V = BoardView;

    open spec fn view(&self) -> BoardView {
        BoardView {
            squares: self.squares@,
            turn: self.turn,
            castling: self.castling,
            en_passant: self.en_passant,
            halfmove_clock: self.halfmove_clock,
            fullmove_number: self.fullmove_number,
        }
    }
}

impl CastlingRights {
    pub open spec fn has(self, c: Color, side: Castling) -> bool {
        match (c, side) {
            (Color::White, Castling::Short) => self.white_short,
            (Color::White, Castling::Long) => self.white_long,
            (Color::Black, Castling::Short) => self.black_short,
            (Color::Black, Castling::Long) => self.black_long,
        }
    }

    /// Whether `c` may still castle to `side`.
    pub fn get(&self, c: Color, side: Castling) -> (r: bool)
        ensures
            r == self.has(c, side),
    {
        match (c, side) {
            (Color::White, Castling::Short) => self.white_short,
            (Color::White, Castling::Long) => self.white_long,
            (Color::Black, Castling::Short) => self.black_short,
            (Color::Black, Castling::Long) => self.black_long,
        }
    }
}

/// The file a rook starts on, for castling to `side`.
pub open spec fn rook_file(side: Castling) -> int {
    match side {
        Castling::Short => 7,
        Castling::Long => 0,
    }
}

/// The file a rook lands on when castling to `side`.
pub open spec fn rook_castled_file(side: Castling) -> int {
    match side {
        Castling::Short => 5,
        Castling::Long => 3,
    }
}

pub open spec fn is_at(sq: SquareSpec, r: int, f: int) -> bool {
    sq.rank as int == r && sq.file as int == f
}

/// Whether a move from or to `sq` ends the right of `c` to castle to `side`:
/// `sq` is where that king or that rook starts.
pub open spec fn touches_right(sq: SquareSpec, c: Color, side: Castling) -> bool {
    is_at(sq, home_rank_of(c), 4) || is_at(sq, home_rank_of(c), rook_file(side))
}

/// The castling rights left after a move from or to `sq`.
pub open spec fn rights_after_touch(r: CastlingRights, sq: SquareSpec) -> CastlingRights {
    CastlingRights {
        white_short: r.white_short && !touches_right(sq, Color::White, Castling::Short),
        white_long: r.white_long && !touches_right(sq, Color::White, Castling::Long),
        black_short: r.black_short && !touches_right(sq, Color::Black, Castling::Short),
        black_long: r.black_long && !touches_right(sq, Color::Black, Castling::Long),
    }
}

/// The castling rights left once `c` has castled.
pub open spec fn rights_without(r: CastlingRights, c: Color) -> CastlingRights {
    match c {
        Color::White => CastlingRights { white_short: false, white_long: false, ..r },
        Color::Black => CastlingRights { black_short: false, black_long: false, ..r },
    }
}

/// One more, short of the largest value.
pub open spec fn sat_inc(x: u64) -> u64 {
    if x < u64::MAX {
        (x + 1) as u64
    } else {
        x
    }
}

pub open spec fn move_wf(m: Move) -> bool {
    match m {
        Move::Normal { from, to } => from.wf() && to.wf(),
        Move::Promotion { from, to, .. } => from.wf() && to.wf(),
        Move::Castling(_) => true,
    }
}

/// The square a pawn crossed on a double step from `from` to `to`.
pub open spec fn crossed_square(from: SquareSpec, to: SquareSpec) -> SquareSpec {
    SquareSpec {
        rank: (if to.rank > from.rank {
            from.rank + 1
        } else {
            from.rank - 1
        }) as u8,
        file: from.file,
    }
}

pub open spec fn is_double_step(from: SquareSpec, to: SquareSpec) -> bool {
    to.rank as int - from.rank as int == 2 || from.rank as int - to.rank as int == 2
}

impl BoardView {
    pub open spec fn wf(self) -> bool {
        &&& self.squares.len() == 64
        &&& (self.en_passant is Some ==> self.en_passant->0.wf())
    }

    pub open spec fn at(self, sq: SquareSpec) -> Option<Piece> {
        self.squares[sq.index()]
    }

    pub open spec fn at_rf(self, r: int, f: int) -> Option<Piece> {
        self.squares[index_of(r, f)]
    }

    pub open spec fn with_turn(self, c: Color) -> BoardView {
        BoardView { turn: c, ..self }
    }

    /// Whether a move of the side to move from `from` to `to` is an en
    /// passant capture.
    pub open spec fn is_en_passant(self, from: SquareSpec, to: SquareSpec) -> bool {
        &&& self.at(from) is Some
        &&& self.at(from)->0.piece == PieceType::Pawn
        &&& self.en_passant == Some(to)
        &&& from.file != to.file
    }

    /// The position after the side to move plays `m`, without any judgement
    /// of legality.
    pub open spec fn apply(self, m: Move) -> BoardView {
        let c = self.turn;
        let fullmove = if c == Color::Black {
            sat_inc(self.fullmove_number)
        } else {
            self.fullmove_number
        };
        match m {
            Move::Normal { from, to } => {
                let p = self.at(from);
                let is_pawn = p is Some && p->0.piece == PieceType::Pawn;
                let ep = self.is_en_passant(from, to);
                let moved = self.squares.update(to.index(), p).update(from.index(), None);
                BoardView {
                    squares: if ep {
                        moved.update(index_of(from.rank as int, to.file as int), None)
                    } else {
                        moved
                    },
                    turn: opposite_of(c),
                    castling: rights_after_touch(rights_after_touch(self.castling, from), to),
                    en_passant: if is_pawn && is_double_step(from, to) {
                        Some(crossed_square(from, to))
                    } else {
                        None
                    },
                    halfmove_clock: if is_pawn || self.at(to) is Some {
                        0
                    } else {
                        sat_inc(self.halfmove_clock)
                    },
                    fullmove_number: fullmove,
                }
            },
            Move::Promotion { from, to, target } => BoardView {
                squares: self.squares.update(to.index(), Some(Piece { color: c, piece: target })).update(
                    from.index(),
                    None,
                ),
                turn: opposite_of(c),
                castling: rights_after_touch(rights_after_touch(self.castling, from), to),
                en_passant: None,
                halfmove_clock: 0,
                fullmove_number: fullmove,
            },
            Move::Castling(side) => {
                let h = home_rank_of(c);
                BoardView {
                    squares: self.squares.update(index_of(h, 4), None).update(
                        index_of(h, rook_file(side)),
                        None,
                    ).update(
                        index_of(h, castle_king_file(side)),
                        Some(Piece { color: c, piece: PieceType::King }),
                    ).update(
                        index_of(h, rook_castled_file(side)),
                        Some(Piece { color: c, piece: PieceType::Rook }),
                    ),
                    turn: opposite_of(c),
                    castling: rights_without(self.castling, c),
                    en_passant: None,
                    halfmove_clock: sat_inc(self.halfmove_clock),
                    fullmove_number: fullmove,
                }
            },
        }
    }
}

/// The piece on square (r, f) in the starting position.
pub open spec fn initial_piece(r: int, f: int) -> Option<Piece> {
    let back = if f == 0 || f == 7 {
        PieceType::Rook
    } else if f == 1 || f == 6 {
        PieceType::Knight
    } else if f == 2 || f == 5 {
        PieceType::Bishop
    } else if f == 3 {
        PieceType::Queen
    } else {
        PieceType::King
    };
    if r == 0 {
        Some(Piece { color: Color::White, piece: back })
    } else if r == 1 {
        Some(Piece { color: Color::White, piece: PieceType::Pawn })
    } else if r == 6 {
        Some(Piece { color: Color::Black, piece: PieceType::Pawn })
    } else if r == 7 {
        Some(Piece { color: Color::Black, piece: back })
    } else {
        None
    }
}

/// The starting position.
pub open spec fn initial_view() -> BoardView {
    BoardView {
        squares: Seq::new(64, |i: int| initial_piece(i / 8, i % 8)),
        turn: Color::White,
        castling: CastlingRights {
            white_short: true,
            white_long: true,
            black_short: true,
            black_long: true,
        },
        en_passant: None,
        halfmove_clock: 0,
        fullmove_number: 1,
    }
}

fn initial_piece_at(r: u8, f: u8) -> (p: Option<Piece>)
    ensures
        p == initial_piece(r as int, f as int),
{
    let back = if f == 0 || f == 7 {
        PieceType::Rook
    } else if f == 1 || f == 6 {
        PieceType::Knight
    } else if f == 2 || f == 5 {
        PieceType::Bishop
    } else if f == 3 {
        PieceType::Queen
    } else {
        PieceType::King
    };
    if r == 0 {
        Some(Piece { color: Color::White, piece: back })
    } else if r == 1 {
        Some(Piece { color: Color::White, piece: PieceType::Pawn })
    } else if r == 6 {
        Some(Piece { color: Color::Black, piece: PieceType::Pawn })
    } else if r == 7 {
        Some(Piece { color: Color::Black, piece: back })
    } else {
        None
    }
}

fn touch_rights(r: CastlingRights, sq: SquareSpec) -> (out: CastlingRights)
    ensures
        out == rights_after_touch(r, sq),
{
    let white_home = sq.rank == 0 && sq.file == 4;
    let black_home = sq.rank == 7 && sq.file == 4;
    CastlingRights {
        white_short: r.white_short && !(white_home || (sq.rank == 0 && sq.file == 7)),
        white_long: r.white_long && !(white_home || (sq.rank == 0 && sq.file == 0)),
        black_short: r.black_short && !(black_home || (sq.rank == 7 && sq.file == 7)),
        black_long: r.black_long && !(black_home || (sq.rank == 7 && sq.file == 0)),
    }
}

fn inc_saturating(x: u64) -> (r: u64)
    ensures
        r == sat_inc(x),
{
    if x < u64::MAX {
        x + 1
    } else {
        x
    }
}

impl Board {
    pub open spec fn wf(&self) -> bool {
        self@.wf()
    }

    /// The standard starting position: White to move, all castling rights,
    /// no en passant target, counters at their start.
    pub fn new() -> (b: Board)
        ensures
            b.wf(),
            b@ == initial_view(),
    {
        let mut squares: Vec<Option<Piece>> = Vec::new();
        let mut r: u8 = 0;
        while r < 8
            invariant
                r <= 8,
                squares@.len() == index_of(r as int, 0),
                forall|i: int| 0 <= i < squares@.len() ==> squares@[i] == initial_piece(i / 8, i % 8),
            decreases 8 - r,
        {
            let mut f: u8 = 0;
            while f < 8
                invariant
                    r < 8,
                    f <= 8,
                    squares@.len() == index_of(r as int, f as int),
                    forall|i: int|
                        0 <= i < squares@.len() ==> squares@[i] == initial_piece(i / 8, i % 8),
                decreases 8 - f,
            {
                let p = initial_piece_at(r, f);
                proof {
                    let i = index_of(r as int, f as int);
                    assert(i / 8 == r as int && i % 8 == f as int);
                }
                squares.push(p);
                f = f + 1;
            }
            r = r + 1;
        }
        let b = Board {
            squares,
            turn: Color::White,
            castling: CastlingRights {
                white_short: true,
                white_long: true,
                black_short: true,
                black_long: true,
            },
            en_passant: None,
            halfmove_clock: 0,
            fullmove_number: 1,
        };
        assert(b@.squares =~= initial_view().squares);
        b
    }

    /// A board with no pieces, `turn` to move, no castling rights and no en
    /// passant target.
    pub fn empty(turn: Color) -> (b: Board)
        ensures
            b.wf(),
            forall|i: int| 0 <= i < 64 ==> b@.squares[i] is None,
            b@.turn == turn,
            b@.castling == (CastlingRights {
                white_short: false,
                white_long: false,
                black_short: false,
                black_long: false,
            }),
            b@.en_passant is None,
            b@.halfmove_clock == 0,
            b@.fullmove_number == 1,
    {
        let mut squares: Vec<Option<Piece>> = Vec::new();
        let mut i: usize = 0;
        while i < 64
            invariant
                i <= 64,
                squares@.len() == i,
                forall|j: int| 0 <= j < i ==> squares@[j] is None,
            decreases 64 - i,
        {
            squares.push(None);
            i = i + 1;
        }
        Board {
            squares,
            turn,
            castling: CastlingRights {
                white_short: false,
                white_long: false,
                black_short: false,
                black_long: false,
            },
            en_passant: None,
            halfmove_clock: 0,
            fullmove_number: 1,
        }
    }

    /// A copy of this board that shares nothing with it.
    pub fn copy(&self) -> (b: Board)
        requires
            self.wf(),
        ensures
            b@ == self@,
    {
        let mut squares: Vec<Option<Piece>> = Vec::new();
        let mut i: usize = 0;
        while i < 64
            invariant
                self.wf(),
                i <= 64,
                squares@ == self.squares@.subrange(0, i as int),
            decreases 64 - i,
        {
            squares.push(self.squares[i]);
            i = i + 1;
        }
        assert(squares@ =~= self.squares@);
        Board {
            squares,
            turn: self.turn,
            castling: self.castling,
            en_passant: self.en_passant,
            halfmove_clock: self.halfmove_clock,
            fullmove_number: self.fullmove_number,
        }
    }

    /// The side to move.
    pub fn turn(&self) -> (c: Color)
        ensures
            c == self@.turn,
    {
        self.turn
    }

    /// The occupant of `sq`, if any.
    pub fn piece_at(&self, sq: SquareSpec) -> (p: Option<Piece>)
        requires
            self.wf(),
            sq.wf(),
        ensures
            p == self@.at(sq),
    {
        self.squares[sq.to_index()]
    }

    /// The castling rights still held.
    pub fn castling_rights(&self) -> (r: CastlingRights)
        ensures
            r == self@.castling,
    {
        self.castling
    }

    /// The square a pawn may be taken on en passant, if any.
    pub fn en_passant(&self) -> (r: Option<SquareSpec>)
        ensures
            r == self@.en_passant,
    {
        self.en_passant
    }

    /// Half-moves since the last pawn move or capture.
    pub fn halfmove_clock(&self) -> (r: u64)
        ensures
            r == self@.halfmove_clock,
    {
        self.halfmove_clock
    }

    /// The number of the current full move, from 1.
    pub fn fullmove_number(&self) -> (r: u64)
        ensures
            r == self@.fullmove_number,
    {
        self.fullmove_number
    }

    /// Puts `p` on `sq` (or clears it), leaving the rest as it is.
    pub fn set_piece(&mut self, sq: SquareSpec, p: Option<Piece>)
        requires
            old(self).wf(),
            sq.wf(),
        ensures
            final(self).wf(),
            final(self)@ == (BoardView { squares: old(self)@.squares.update(sq.index(), p), ..old(self)@ }),
    {
        let i = sq.to_index();
        self.squares.set(i, p);
    }

    /// Sets the side to move.
    pub fn set_turn(&mut self, c: Color)
        ensures
            final(self)@ == old(self)@.with_turn(c),
    {
        self.turn = c;
    }

    /// Sets the castling rights.
    pub fn set_castling_rights(&mut self, r: CastlingRights)
        ensures
            final(self)@ == (BoardView { castling: r, ..old(self)@ }),
    {
        self.castling = r;
    }

    /// Sets the en passant target square.
    pub fn set_en_passant(&mut self, sq: Option<SquareSpec>)
        requires
            sq is Some ==> sq->0.wf(),
        ensures
            final(self)@ == (BoardView { en_passant: sq, ..old(self)@ }),
    {
        self.en_passant = sq;
    }

    /// Plays `m` for the side to move: moves the pieces (the captured pawn
    /// of an en passant capture, the rook of a castling, the new piece of a
    /// promotion), updates castling rights, the en passant target and the
    /// counters, and passes the turn. Legality is not judged here.
    pub fn apply(&mut self, m: Move)
        requires
            old(self).wf(),
            move_wf(m),
        ensures
            final(self).wf(),
            final(self)@ == old(self)@.apply(m),
    {
        let c = self.turn;
        let ghost v = self@;
        match m {
            Move::Normal { from, to } => {
                let fi = from.to_index();
                let ti = to.to_index();
                let p = self.squares[fi];
                let is_pawn = match p {
                    Some(pc) => pc.piece == PieceType::Pawn,
                    None => false,
                };
                let ep = is_pawn && self.en_passant == Some(to) && from.file != to.file;
                let capture = self.squares[ti].is_some();
                self.squares.set(ti, p);
                self.squares.set(fi, None);
                if ep {
                    let vi = SquareSpec::new(from.rank, to.file).to_index();
                    self.squares.set(vi, None);
                }
                self.castling = touch_rights(touch_rights(self.castling, from), to);
                let double = (to.rank >= from.rank && to.rank - from.rank == 2) || (from.rank
                    >= to.rank && from.rank - to.rank == 2);
                if is_pawn && double {
                    let mid = if to.rank > from.rank {
                        from.rank + 1
                    } else {
                        from.rank - 1
                    };
                    self.en_passant = Some(SquareSpec::new(mid, from.file));
                } else {
                    self.en_passant = None;
                }
                if is_pawn || capture {
                    self.halfmove_clock = 0;
                } else {
                    self.halfmove_clock = inc_saturating(self.halfmove_clock);
                }
            },
            Move::Promotion { from, to, target } => {
                let fi = from.to_index();
                let ti = to.to_index();
                self.squares.set(ti, Some(Piece { color: c, piece: target }));
                self.squares.set(fi, None);
                self.castling = touch_rights(touch_rights(self.castling, from), to);
                self.en_passant = None;
                self.halfmove_clock = 0;
            },
            Move::Castling(side) => {
                let h = c.home_rank();
                let (kt, rf, rt): (u8, u8, u8) = match side {
                    Castling::Short => (6, 7, 5),
                    Castling::Long => (2, 0, 3),
                };
                self.squares.set(SquareSpec::new(h, 4).to_index(), None);
                self.squares.set(SquareSpec::new(h, rf).to_index(), None);
                self.squares.set(
                    SquareSpec::new(h, kt).to_index(),
                    Some(Piece { color: c, piece: PieceType::King }),
                );
                self.squares.set(
                    SquareSpec::new(h, rt).to_index(),
                    Some(Piece { color: c, piece: PieceType::Rook }),
                );
                self.castling = match c {
                    Color::White => CastlingRights {
                        white_short: false,
                        white_long: false,
                        ..self.castling
                    },
                    Color::Black => CastlingRights {
                        black_short: false,
                        black_long: false,
                        ..self.castling
                    },
                };
                self.en_passant = None;
                self.halfmove_clock = inc_saturating(self.halfmove_clock);
            },
        }
        if c == Color::Black {
            self.fullmove_number = inc_saturating(self.fullmove_number);
        }
        self.turn = c.opposite();
        assert(self@.squares =~= v.apply(m).squares);
    }
}

} // verus!
