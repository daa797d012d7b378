//! The game: the current position, the moves played, and the state of the
//! game for the side to move.
use vstd::prelude::*;
use crate::board::{initial_view, move_wf, Board, BoardView};
use crate::move_types::Move;
use crate::movegen::{is_legal, king_attacked, king_in_check, legal, own};
use crate::square::SquareSpec;

verus! {

/// Half-moves without a pawn move or capture after which the game is drawn.
pub const DRAW_HALFMOVES: u64 = 100;

/// The state of the game for the side to move.
#[derive(Copy, Clone, Debug, PartialEq, Eq, Structural, Hash)]
pub enum BoardState {
    Normal,
    Check,
    Checkmate,
    Stalemate,
    Draw,
}

/// A game in progress.
#[derive(Debug)]
pub struct Game {
    pub board: Board,
    pub history: Vec<Move>,
}

/// The position reached from `v` by playing `ms` in order.
pub open spec fn replay(v: BoardView, ms: Seq<Move>) -> BoardView
    decreases ms.len(),
{
    if ms.len() == 0 {
        v
    } else {
        replay(v, ms.drop_last()).apply(ms.last())
    }
}

/// The side to move has some legal move.
pub open spec fn has_legal_move(v: BoardView) -> bool {
    exists|from: SquareSpec, m: Move| from.wf() && own(v, from, v.turn) && #[trigger] legal(v, from, m)
}

/// The state of the game in position `v`.
pub open spec fn state_of(v: BoardView) -> BoardState {
    if v.halfmove_clock >= DRAW_HALFMOVES {
        BoardState::Draw
    } else if !has_legal_move(v) {
        if king_attacked(v, v.turn) {
            BoardState::Checkmate
        } else {
            BoardState::Stalemate
        }
    } else if king_attacked(v, v.turn) {
        BoardState::Check
    } else {
        BoardState::Normal
    }
}

/// `m` may be played in position `v`: it is a legal move of a piece of the
/// side to move.
pub open spec fn playable(v: BoardView, m: Move) -> bool {
    let from = m.spec_from(v.turn);
    own(v, from, v.turn) && legal(v, from, m)
}

/// Whether the side to move has a legal move.
pub fn any_legal_move(b: &Board) -> (r: bool)
    requires
        b.wf(),
    ensures
        r == has_legal_move(b@),
{
    let mut i: usize = 0;
    while i < 64
        invariant
            b.wf(),
            i <= 64,
            forall|s: SquareSpec, m: Move|
                s.wf() && s.index() < i && own(b@, s, b@.turn) ==> !#[trigger] legal(b@, s, m),
        decreases 64 - i,
    {
        let s = SquareSpec::new((i / 8) as u8, (i % 8) as u8);
        let mine = match b.squares[i] {
            Some(p) => p.color == b.turn,
            None => false,
        };
        if mine {
            let moves = b.get_legal_moves(s);
            if moves.len() > 0 {
                assert(moves@.contains(moves@[0]));
                assert(legal(b@, s, moves@[0]));
                return true;
            }
            assert forall|m: Move| !#[trigger] legal(b@, s, m) by {
                if legal(b@, s, m) {
                    assert(moves@.contains(m));
                }
            }
        }
        i = i + 1;
    }
    proof {
        assert forall|s: SquareSpec, m: Move| s.wf() && own(b@, s, b@.turn) implies !#[trigger] legal(b@, s, m) by {
            assert(s.index() < 64);
        }
    }
    false
}

/// The state of the game in position `b`.
pub fn state_of_board(b: &Board) -> (r: BoardState)
    requires
        b.wf(),
    ensures
        r == state_of(b@),
{
    if b.halfmove_clock >= DRAW_HALFMOVES {
        return BoardState::Draw;
    }
    let in_check = king_in_check(b, b.turn);
    if !any_legal_move(b) {
        if in_check {
            BoardState::Checkmate
        } else {
            BoardState::Stalemate
        }
    } else if in_check {
        BoardState::Check
    } else {
        BoardState::Normal
    }
}

/// The position reached from the start by playing the first `n` of `moves`.
pub fn replay_moves(moves: &Vec<Move>, n: usize) -> (b: Board)
    requires
        n <= moves@.len(),
        forall|i: int| 0 <= i < moves@.len() ==> move_wf(#[trigger] moves@[i]),
    ensures
        b.wf(),
        b@ == replay(initial_view(), moves@.take(n as int)),
{
    let mut b = Board::new();
    let mut i: usize = 0;
    assert(moves@.take(0) =~= Seq::<Move>::empty());
    while i < n
        invariant
            n <= moves@.len(),
            forall|i: int| 0 <= i < moves@.len() ==> move_wf(#[trigger] moves@[i]),
            i <= n,
            b.wf(),
            b@ == replay(initial_view(), moves@.take(i as int)),
        decreases n - i,
    {
        b.apply(moves[i]);
        assert(moves@.take(i + 1).drop_last() =~= moves@.take(i as int));
        i = i + 1;
    }
    b
}

impl Game {
    /// The board is well formed, every move of the history names squares
    /// of the board, and the board is what the history gives from the start.
    pub open spec fn wf(&self) -> bool {
        &&& self.board.wf()
        &&& forall|i: int| 0 <= i < self.history@.len() ==> move_wf(#[trigger] self.history@[i])
        &&& self.board@ == replay(initial_view(), self.history@)
    }

    /// A game at the standard starting position, with no moves played.
    pub fn new() -> (g: Game)
        ensures
            g.wf(),
            g.board@ == initial_view(),
            g.history@.len() == 0,
    {
        Game { board: Board::new(), history: Vec::new() }
    }

    /// The current position.
    pub fn current_board(&self) -> (b: &Board)
        ensures
            b == &self.board,
    {
        &self.board
    }

    /// The moves played so far, oldest first.
    pub fn history(&self) -> (h: &Vec<Move>)
        ensures
            h == &self.history,
    {
        &self.history
    }

    /// The state of the game for the side to move. It depends on the
    /// current position alone.
    pub fn board_state(&self) -> (r: BoardState)
        requires
            self.wf(),
        ensures
            r == state_of(self.board@),
    {
        state_of_board(&self.board)
    }

    /// Plays `m` if it is a legal move of a piece of the side to move, and
    /// records it; otherwise changes nothing. Returns whether it was played.
    pub fn make_move(&mut self, m: Move) -> (played: bool)
        requires
            old(self).wf(),
        ensures
            final(self).wf(),
            played == playable(old(self).board@, m),
            played ==> final(self).board@ == old(self).board@.apply(m),
            played ==> final(self).history@ == old(self).history@.push(m),
            !played ==> final(self).board@ == old(self).board@,
            !played ==> final(self).history@ == old(self).history@,
    {
        let c = self.board.turn;
        let from = m.from(c);
        if from.rank >= 8 || from.file >= 8 {
            return false;
        }
        let mine = match self.board.piece_at(from) {
            Some(p) => p.color == c,
            None => false,
        };
        if !mine || !is_legal(&self.board, from, m) {
            return false;
        }
        let ghost h = self.history@;
        self.board.apply(m);
        self.history.push(m);
        assert(self.history@.drop_last() =~= h);
        true
    }

    /// Takes back the last move, rebuilding the position by replaying the
    /// rest of the history from the start. Returns whether there was a
    /// move to take back.
    pub fn undo(&mut self) -> (undone: bool)
        requires
            old(self).wf(),
        ensures
            final(self).wf(),
            undone == (old(self).history@.len() > 0),
            undone ==> final(self).history@ == old(self).history@.drop_last(),
            undone ==> final(self).board@ == replay(initial_view(), final(self).history@),
            !undone ==> final(self).history@ == old(self).history@ && final(self).board@ == old(
                self,
            ).board@,
    {
        let n = self.history.len();
        if n == 0 {
            return false;
        }
        let board = replay_moves(&self.history, n - 1);
        self.history.pop();
        assert(old(self).history@.take(n - 1) =~= self.history@);
        self.board = board;
        true
    }
}

/// Replaying the history of a game from the starting position reproduces
/// its current board.
pub proof fn lemma_history_replays_to_board(g: &Game)
    requires
        g.wf(),
    ensures
        replay(initial_view(), g.history@) == g.board@,
{
}

/// Playing a move and then taking it back by replay gives back the
/// position from before the move.
pub proof fn lemma_undo_restores(h: Seq<Move>, m: Move)
    ensures
        replay(initial_view(), h.push(m).drop_last()) == replay(initial_view(), h),
{
    assert(h.push(m).drop_last() =~= h);
}

} // verus!
