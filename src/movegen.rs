//! Attack detection, pseudo-legal and legal moves.
//!
//! Every move is judged by an exact decision procedure; generation tries each
//! candidate move of a piece and keeps those that the procedure accepts.
//! Attack detection looks only at piece geometry and never at legality, so
//! the legality filter calls it one level deep and no further.
use vstd::prelude::*;
use crate::board::{is_at, rook_file, Board, BoardView};
use crate::move_types::{Castling, Move};
use crate::piece::{
    forward_of, home_rank_of, is_promotion_target, opposite_of, pawn_rank_of, Color, Piece,
    PieceType,
};
use crate::square::{on_board, SquareSpec};

verus! {

pub open spec fn abs(x: int) -> int {
    if x < 0 {
        -x
    } else {
        x
    }
}

pub open spec fn sign(x: int) -> int {
    if x > 0 {
        1
    } else if x < 0 {
        -1
    } else {
        0
    }
}

pub open spec fn max(a: int, b: int) -> int {
    if a >= b {
        a
    } else {
        b
    }
}

/// `x` moved `n` times by the unit step `s`.
pub open spec fn step(x: int, s: int, n: int) -> int {
    if s > 0 {
        x + n
    } else if s < 0 {
        x - n
    } else {
        x
    }
}

/// Square (r, f) lies on the board and holds no piece.
pub open spec fn empty_rf(v: BoardView, r: int, f: int) -> bool {
    on_board(r, f) && v.at_rf(r, f) is None
}

/// The squares strictly between (r, f) and the square `n` unit steps
/// (sr, sf) away are all empty.
pub open spec fn clear_between(v: BoardView, r: int, f: int, sr: int, sf: int, n: nat) -> bool
    decreases n,
{
    if n <= 1 {
        true
    } else {
        clear_between(v, r, f, sr, sf, (n - 1) as nat) && empty_rf(
            v,
            step(r, sr, n - 1),
            step(f, sf, n - 1),
        )
    }
}

/// The way from `from` to `to` is free of pieces, along a line whose
/// geometry the caller has checked.
pub open spec fn line_clear(v: BoardView, from: SquareSpec, to: SquareSpec) -> bool {
    let dr = to.rank as int - from.rank as int;
    let df = to.file as int - from.file as int;
    clear_between(v, from.rank as int, from.file as int, sign(dr), sign(df), max(abs(dr), abs(df)) as nat)
}

pub open spec fn straight(dr: int, df: int) -> bool {
    (dr == 0) != (df == 0)
}

pub open spec fn diagonal(dr: int, df: int) -> bool {
    abs(dr) == abs(df) && dr != 0
}

/// The piece `p`, standing on `from`, attacks `to`.
pub open spec fn attacks(v: BoardView, p: Piece, from: SquareSpec, to: SquareSpec) -> bool {
    let dr = to.rank as int - from.rank as int;
    let df = to.file as int - from.file as int;
    match p.piece {
        PieceType::Pawn => dr == forward_of(p.color) && abs(df) == 1,
        PieceType::Knight => (abs(dr) == 1 && abs(df) == 2) || (abs(dr) == 2 && abs(df) == 1),
        PieceType::King => abs(dr) <= 1 && abs(df) <= 1 && !(dr == 0 && df == 0),
        PieceType::Rook => straight(dr, df) && line_clear(v, from, to),
        PieceType::Bishop => diagonal(dr, df) && line_clear(v, from, to),
        PieceType::Queen => (straight(dr, df) || diagonal(dr, df)) && line_clear(v, from, to),
    }
}

/// A piece of color `by` stands on `s` and attacks `target`.
pub open spec fn attacker(v: BoardView, s: SquareSpec, target: SquareSpec, by: Color) -> bool {
    &&& v.at(s) is Some
    &&& v.at(s)->0.color == by
    &&& attacks(v, v.at(s)->0, s, target)
}

/// Square `target` is attacked by color `by`.
pub open spec fn attacked(v: BoardView, target: SquareSpec, by: Color) -> bool {
    exists|s: SquareSpec| s.wf() && #[trigger] attacker(v, s, target, by)
}

/// A king of color `c` stands attacked.
pub open spec fn king_attacked(v: BoardView, c: Color) -> bool {
    exists|s: SquareSpec|
        s.wf() && #[trigger] v.at(s) == Some(Piece { color: c, piece: PieceType::King })
            && attacked(v, s, opposite_of(c))
}

pub open spec fn sq(r: int, f: int) -> SquareSpec {
    SquareSpec { rank: r as u8, file: f as u8 }
}

/// `sq` holds a piece of color `c`.
pub open spec fn own(v: BoardView, s: SquareSpec, c: Color) -> bool {
    v.at(s) is Some && v.at(s)->0.color == c
}

/// A pawn of color `c` on `from` may go to `to`: one step onto an empty
/// square, two from its starting rank over empty squares, or diagonally onto
/// an enemy piece or the en passant target.
pub open spec fn pawn_step(v: BoardView, c: Color, from: SquareSpec, to: SquareSpec) -> bool {
    let dr = to.rank as int - from.rank as int;
    let df = to.file as int - from.file as int;
    let fwd = forward_of(c);
    ||| (df == 0 && dr == fwd && v.at(to) is None)
    ||| (df == 0 && dr == 2 * fwd && from.rank as int == pawn_rank_of(c) && v.at(to) is None
        && empty_rf(v, from.rank as int + fwd, from.file as int))
    ||| (abs(df) == 1 && dr == fwd && (own(v, to, opposite_of(c)) || v.en_passant == Some(to)))
}

/// Color `c` may castle to `side` as far as the position goes: the right is
/// held, the rook is in its corner, the squares between are empty, and the
/// king's start, transit and destination squares are not attacked.
pub open spec fn castle_ok(v: BoardView, c: Color, side: Castling) -> bool {
    let h = home_rank_of(c);
    let e = opposite_of(c);
    &&& v.castling.has(c, side)
    &&& v.at_rf(h, rook_file(side)) == Some(Piece { color: c, piece: PieceType::Rook })
    &&& !attacked(v, sq(h, 4), e)
    &&& match side {
        Castling::Short => empty_rf(v, h, 5) && empty_rf(v, h, 6) && !attacked(v, sq(h, 5), e)
            && !attacked(v, sq(h, 6), e),
        Castling::Long => empty_rf(v, h, 1) && empty_rf(v, h, 2) && empty_rf(v, h, 3)
            && !attacked(v, sq(h, 3), e) && !attacked(v, sq(h, 2), e),
    }
}

/// `m` is a pseudo-legal move of the piece on `from`: it follows the
/// piece's movement rules, without regard to its own king.
pub open spec fn pseudo_legal(v: BoardView, from: SquareSpec, m: Move) -> bool {
    let p = v.at(from)->0;
    let c = p.color;
    &&& from.wf()
    &&& v.at(from) is Some
    &&& match m {
        Move::Normal { from: f, to } => f == from && to.wf() && !own(v, to, c) && if p.piece
            == PieceType::Pawn {
            pawn_step(v, c, from, to) && to.rank as int != home_rank_of(opposite_of(c))
        } else {
            attacks(v, p, from, to)
        },
        Move::Promotion { from: f, to, target } => f == from && to.wf() && p.piece
            == PieceType::Pawn && pawn_step(v, c, from, to) && to.rank as int == home_rank_of(
            opposite_of(c),
        ) && is_promotion_target(target),
        Move::Castling(side) => p.piece == PieceType::King && is_at(from, home_rank_of(c), 4)
            && castle_ok(v, c, side),
    }
}

/// The color of the piece on `from`.
pub open spec fn mover(v: BoardView, from: SquareSpec) -> Color {
    v.at(from)->0.color
}

/// `m` is a legal move of the piece on `from`: pseudo-legal, and after it
/// (played by that piece's side) that side's king is not attacked.
pub open spec fn legal(v: BoardView, from: SquareSpec, m: Move) -> bool {
    &&& pseudo_legal(v, from, m)
    &&& !king_attacked(v.with_turn(mover(v, from)).apply(m), mover(v, from))
}

pub proof fn lemma_clear_between_shorter(v: BoardView, r: int, f: int, sr: int, sf: int, m: nat, n: nat)
    requires
        m <= n,
        clear_between(v, r, f, sr, sf, n),
    ensures
        clear_between(v, r, f, sr, sf, m),
    decreases n,
{
    if m < n {
        lemma_clear_between_shorter(v, r, f, sr, sf, m, (n - 1) as nat);
    }
}

pub proof fn lemma_push_contains<A>(s: Seq<A>, x: A, y: A)
    ensures
        s.push(x).contains(y) <==> (s.contains(y) || y == x),
{
    if s.contains(y) {
        let i = choose|i: int| 0 <= i < s.len() && s[i] == y;
        assert(s.push(x)[i] == y);
    }
    if y == x {
        assert(s.push(x)[s.len() as int] == y);
    }
    if s.push(x).contains(y) {
        let i = choose|i: int| 0 <= i < s.len() + 1 && s.push(x)[i] == y;
        if i < s.len() {
            assert(s[i] == y);
        }
    }
}

fn empty_at(b: &Board, r: i8, f: i8) -> (e: bool)
    requires
        b.wf(),
    ensures
        e == empty_rf(b@, r as int, f as int),
{
    if 0 <= r && r < 8 && 0 <= f && f < 8 {
        b.squares[(r as usize) * 8 + (f as usize)].is_none()
    } else {
        false
    }
}

fn sign_of(x: i8) -> (s: i8)
    ensures
        s as int == sign(x as int),
{
    if x > 0 {
        1
    } else if x < 0 {
        -1
    } else {
        0
    }
}

fn abs_of(x: i8) -> (a: i8)
    requires
        x > i8::MIN,
    ensures
        a as int == abs(x as int),
{
    if x < 0 {
        -x
    } else {
        x
    }
}

/// Whether the squares strictly between (r, f) and the square `n` steps
/// (sr, sf) away are empty.
fn clear_path(b: &Board, r: u8, f: u8, sr: i8, sf: i8, n: i8) -> (c: bool)
    requires
        b.wf(),
        r < 8,
        f < 8,
        -1 <= sr <= 1,
        -1 <= sf <= 1,
        0 <= n <= 8,
    ensures
        c == clear_between(b@, r as int, f as int, sr as int, sf as int, n as nat),
{
    if n <= 1 {
        return true;
    }
    let mut k: i8 = 1;
    let mut cr: i8 = r as i8 + sr;
    let mut cf: i8 = f as i8 + sf;
    while k < n
        invariant
            b.wf(),
            -1 <= sr <= 1,
            -1 <= sf <= 1,
            r < 8,
            f < 8,
            1 <= k <= n <= 8,
            cr as int == step(r as int, sr as int, k as int),
            cf as int == step(f as int, sf as int, k as int),
            clear_between(b@, r as int, f as int, sr as int, sf as int, k as nat),
        decreases n - k,
    {
        if !empty_at(b, cr, cf) {
            proof {
                assert(!clear_between(b@, r as int, f as int, sr as int, sf as int, (k + 1) as nat));
                if clear_between(b@, r as int, f as int, sr as int, sf as int, n as nat) {
                    lemma_clear_between_shorter(
                        b@,
                        r as int,
                        f as int,
                        sr as int,
                        sf as int,
                        (k + 1) as nat,
                        n as nat,
                    );
                }
            }
            return false;
        }
        k = k + 1;
        cr = cr + sr;
        cf = cf + sf;
    }
    true
}

/// Whether the piece `p`, standing on `from`, attacks `to`.
pub fn piece_attacks(b: &Board, p: Piece, from: SquareSpec, to: SquareSpec) -> (a: bool)
    requires
        b.wf(),
        from.wf(),
        to.wf(),
    ensures
        a == attacks(b@, p, from, to),
{
    let dr = to.rank as i8 - from.rank as i8;
    let df = to.file as i8 - from.file as i8;
    let adr = abs_of(dr);
    let adf = abs_of(df);
    let n = if adr >= adf {
        adr
    } else {
        adf
    };
    let is_straight = (dr == 0) != (df == 0);
    let is_diagonal = adr == adf && dr != 0;
    match p.piece {
        PieceType::Pawn => dr == p.color.forward() && adf == 1,
        PieceType::Knight => (adr == 1 && adf == 2) || (adr == 2 && adf == 1),
        PieceType::King => adr <= 1 && adf <= 1 && !(dr == 0 && df == 0),
        PieceType::Rook => is_straight && clear_path(
            b,
            from.rank,
            from.file,
            sign_of(dr),
            sign_of(df),
            n,
        ),
        PieceType::Bishop => is_diagonal && clear_path(
            b,
            from.rank,
            from.file,
            sign_of(dr),
            sign_of(df),
            n,
        ),
        PieceType::Queen => (is_straight || is_diagonal) && clear_path(
            b,
            from.rank,
            from.file,
            sign_of(dr),
            sign_of(df),
            n,
        ),
    }
}

fn square_at(i: usize) -> (s: SquareSpec)
    requires
        i < 64,
    ensures
        s.wf(),
        s.index() == i,
{
    SquareSpec::new((i / 8) as u8, (i % 8) as u8)
}

/// Whether square `target` is attacked by a piece of color `by`.
pub fn is_attacked(b: &Board, target: SquareSpec, by: Color) -> (a: bool)
    requires
        b.wf(),
        target.wf(),
    ensures
        a == attacked(b@, target, by),
{
    let mut i: usize = 0;
    while i < 64
        invariant
            b.wf(),
            target.wf(),
            i <= 64,
            forall|s: SquareSpec| s.wf() && s.index() < i ==> !#[trigger] attacker(b@, s, target, by),
        decreases 64 - i,
    {
        let s = square_at(i);
        match b.squares[i] {
            Some(p) => {
                if p.color == by && piece_attacks(b, p, s, target) {
                    assert(attacker(b@, s, target, by));
                    return true;
                }
            },
            None => {},
        }
        i = i + 1;
    }
    false
}

/// Whether a king of color `c` stands attacked.
pub fn king_in_check(b: &Board, c: Color) -> (a: bool)
    requires
        b.wf(),
    ensures
        a == king_attacked(b@, c),
{
    let king = Piece { color: c, piece: PieceType::King };
    let mut i: usize = 0;
    while i < 64
        invariant
            b.wf(),
            king == (Piece { color: c, piece: PieceType::King }),
            i <= 64,
            forall|s: SquareSpec|
                s.wf() && s.index() < i ==> !(#[trigger] b@.at(s) == Some(king) && attacked(
                    b@,
                    s,
                    opposite_of(c),
                )),
        decreases 64 - i,
    {
        let s = square_at(i);
        if b.squares[i] == Some(king) {
            if is_attacked(b, s, c.opposite()) {
                assert(b@.at(s) == Some(king));
                return true;
            }
        }
        i = i + 1;
    }
    false
}

fn pawn_may_step(b: &Board, c: Color, from: SquareSpec, to: SquareSpec) -> (ok: bool)
    requires
        b.wf(),
        from.wf(),
        to.wf(),
    ensures
        ok == pawn_step(b@, c, from, to),
{
    let fwd = c.forward();
    let dr = to.rank as i8 - from.rank as i8;
    let df = to.file as i8 - from.file as i8;
    let target = b.piece_at(to);
    if df == 0 && dr == fwd {
        target.is_none()
    } else if df == 0 && dr == 2 * fwd {
        from.rank as i8 == c.home_rank() as i8 + fwd && target.is_none() && empty_at(
            b,
            from.rank as i8 + fwd,
            from.file as i8,
        )
    } else if (df == 1 || df == -1) && dr == fwd {
        let enemy = match target {
            Some(q) => q.color == c.opposite(),
            None => false,
        };
        enemy || b.en_passant == Some(to)
    } else {
        false
    }
}

fn may_castle(b: &Board, c: Color, side: Castling) -> (ok: bool)
    requires
        b.wf(),
    ensures
        ok == castle_ok(b@, c, side),
{
    let h = c.home_rank();
    let e = c.opposite();
    if !b.castling.get(c, side) {
        return false;
    }
    let rf: u8 = match side {
        Castling::Short => 7,
        Castling::Long => 0,
    };
    if b.piece_at(SquareSpec::new(h, rf)) != Some(Piece { color: c, piece: PieceType::Rook }) {
        return false;
    }
    if is_attacked(b, SquareSpec::new(h, 4), e) {
        return false;
    }
    let hi = h as i8;
    match side {
        Castling::Short => empty_at(b, hi, 5) && empty_at(b, hi, 6) && !is_attacked(
            b,
            SquareSpec::new(h, 5),
            e,
        ) && !is_attacked(b, SquareSpec::new(h, 6), e),
        Castling::Long => empty_at(b, hi, 1) && empty_at(b, hi, 2) && empty_at(b, hi, 3)
            && !is_attacked(b, SquareSpec::new(h, 3), e) && !is_attacked(
            b,
            SquareSpec::new(h, 2),
            e,
        ),
    }
}

/// Whether `m` is a pseudo-legal move of the piece on `from`.
pub fn is_pseudo_legal(b: &Board, from: SquareSpec, m: Move) -> (ok: bool)
    requires
        b.wf(),
        from.wf(),
    ensures
        ok == pseudo_legal(b@, from, m),
{
    let p = match b.piece_at(from) {
        Some(p) => p,
        None => return false,
    };
    let c = p.color;
    match m {
        Move::Normal { from: f, to } => {
            if f != from || to.rank >= 8 || to.file >= 8 {
                return false;
            }
            let own_target = match b.piece_at(to) {
                Some(q) => q.color == c,
                None => false,
            };
            if own_target {
                return false;
            }
            if p.piece == PieceType::Pawn {
                pawn_may_step(b, c, from, to) && to.rank != c.opposite().home_rank()
            } else {
                piece_attacks(b, p, from, to)
            }
        },
        Move::Promotion { from: f, to, target } => {
            if f != from || to.rank >= 8 || to.file >= 8 || p.piece != PieceType::Pawn {
                return false;
            }
            pawn_may_step(b, c, from, to) && to.rank == c.opposite().home_rank()
                && target.is_promotion_target()
        },
        Move::Castling(side) => p.piece == PieceType::King && from.rank == c.home_rank()
            && from.file == 4 && may_castle(b, c, side),
    }
}

/// Whether `m` is a legal move of the piece on `from`: it is pseudo-legal,
/// and a copy of the board on which that piece's side plays it leaves that
/// side's king unattacked.
pub fn is_legal(b: &Board, from: SquareSpec, m: Move) -> (ok: bool)
    requires
        b.wf(),
        from.wf(),
    ensures
        ok == legal(b@, from, m),
{
    if !is_pseudo_legal(b, from, m) {
        return false;
    }
    let c = match b.piece_at(from) {
        Some(p) => p.color,
        None => return false,
    };
    let mut sim = b.copy();
    sim.set_turn(c);
    sim.apply(m);
    !king_in_check(&sim, c)
}

/// What generation keeps: legal moves, or all pseudo-legal ones.
pub open spec fn kept(v: BoardView, from: SquareSpec, m: Move, legal_only: bool) -> bool {
    if legal_only {
        legal(v, from, m)
    } else {
        pseudo_legal(v, from, m)
    }
}

/// The candidates whose destination comes before square number `i`.
pub open spec fn tried_before(m: Move, i: int) -> bool {
    match m {
        Move::Normal { to, .. } => to.wf() && to.index() < i,
        Move::Promotion { to, .. } => to.wf() && to.index() < i,
        Move::Castling(_) => false,
    }
}

fn consider(b: &Board, from: SquareSpec, m: Move, legal_only: bool, out: &mut Vec<Move>)
    requires
        b.wf(),
        from.wf(),
    ensures
        forall|y: Move|
            #[trigger] final(out)@.contains(y) <==> (old(out)@.contains(y) || (y == m && kept(
                b@,
                from,
                m,
                legal_only,
            ))),
{
    let keep = if legal_only {
        is_legal(b, from, m)
    } else {
        is_pseudo_legal(b, from, m)
    };
    if keep {
        let ghost before = out@;
        out.push(m);
        proof {
            assert forall|y: Move| #[trigger] out@.contains(y) <==> (before.contains(y) || y == m) by {
                lemma_push_contains(before, m, y);
            }
        }
    }
}

fn moves_from(b: &Board, from: SquareSpec, legal_only: bool) -> (out: Vec<Move>)
    requires
        b.wf(),
        from.wf(),
    ensures
        forall|m: Move| #[trigger] out@.contains(m) <==> kept(b@, from, m, legal_only),
{
    let mut out: Vec<Move> = Vec::new();
    let mut i: usize = 0;
    while i < 64
        invariant
            b.wf(),
            from.wf(),
            i <= 64,
            forall|m: Move|
                #[trigger] out@.contains(m) <==> (kept(b@, from, m, legal_only) && tried_before(m, i as int)),
        decreases 64 - i,
    {
        let to = square_at(i);
        consider(b, from, Move::Normal { from, to }, legal_only, &mut out);
        consider(b, from, Move::Promotion { from, to, target: PieceType::Knight }, legal_only, &mut out);
        consider(b, from, Move::Promotion { from, to, target: PieceType::Bishop }, legal_only, &mut out);
        consider(b, from, Move::Promotion { from, to, target: PieceType::Rook }, legal_only, &mut out);
        consider(b, from, Move::Promotion { from, to, target: PieceType::Queen }, legal_only, &mut out);
        proof {
            assert forall|m: Move|
                kept(b@, from, m, legal_only) && tried_before(m, i + 1) && !tried_before(m, i as int)
                    implies #[trigger] out@.contains(m) by {
                match m {
                    Move::Normal { from: f, to: t } => {
                        assert(t == to);
                    },
                    Move::Promotion { from: f, to: t, target } => {
                        assert(t == to);
                    },
                    Move::Castling(_) => {},
                }
            }
        }
        i = i + 1;
    }
    consider(b, from, Move::Castling(Castling::Short), legal_only, &mut out);
    consider(b, from, Move::Castling(Castling::Long), legal_only, &mut out);
    proof {
        assert forall|m: Move| #[trigger] out@.contains(m) <==> kept(b@, from, m, legal_only) by {
            match m {
                Move::Normal { to, .. } => {
                    if to.wf() {
                        assert(to.index() < 64);
                    }
                },
                Move::Promotion { to, .. } => {
                    if to.wf() {
                        assert(to.index() < 64);
                    }
                },
                Move::Castling(side) => {
                    match side {
                        Castling::Short => {},
                        Castling::Long => {},
                    }
                },
            }
        }
    }
    out
}

impl Board {
    /// The pseudo-legal moves of the piece on `sq`, in no particular order.
    pub fn pseudo_legal_moves(&self, sq: SquareSpec) -> (moves: Vec<Move>)
        requires
            self.wf(),
            sq.wf(),
        ensures
            forall|m: Move| #[trigger] moves@.contains(m) <==> pseudo_legal(self@, sq, m),
    {
        moves_from(self, sq, false)
    }

    /// The legal moves of the piece on `sq`, in no particular order; none
    /// where `sq` is empty.
    pub fn get_legal_moves(&self, sq: SquareSpec) -> (moves: Vec<Move>)
        requires
            self.wf(),
            sq.wf(),
        ensures
            forall|m: Move| #[trigger] moves@.contains(m) <==> legal(self@, sq, m),
    {
        moves_from(self, sq, true)
    }
}

/// A legal move never leaves its own side's king attacked: for every legal
/// move of the piece on `from`, the position after that piece's side plays
/// it has that side's king unattacked. When that side is to move, this is
/// the position that `Board::apply` produces.
pub proof fn lemma_legal_move_leaves_king_safe(v: BoardView, from: SquareSpec, m: Move)
    requires
        v.wf(),
        legal(v, from, m),
    ensures
        !king_attacked(v.with_turn(mover(v, from)).apply(m), mover(v, from)),
        v.turn == mover(v, from) ==> !king_attacked(v.apply(m), v.turn),
{
    if v.turn == mover(v, from) {
        assert(v.with_turn(mover(v, from)) == v);
    }
}

} // verus!
