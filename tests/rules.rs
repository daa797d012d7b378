use chess_engine::movegen::{is_attacked, king_in_check};
use chess_engine::{
    Board, BoardState, Castling, CastlingRights, Color, Game, Move, Piece, PieceType, SquareSpec,
};

fn sq(name: &str) -> SquareSpec {
    let b = name.as_bytes();
    SquareSpec::new(b[1] - b'1', b[0] - b'a')
}

fn pc(color: Color, piece: PieceType) -> Option<Piece> {
    Some(Piece { color, piece })
}

fn normal(from: &str, to: &str) -> Move {
    Move::Normal { from: sq(from), to: sq(to) }
}

fn all_legal_moves(b: &Board) -> Vec<Move> {
    let mut out = Vec::new();
    for r in 0..8u8 {
        for f in 0..8u8 {
            let s = SquareSpec::new(r, f);
            if let Some(p) = b.piece_at(s) {
                if p.color == b.turn() {
                    out.extend(b.get_legal_moves(s));
                }
            }
        }
    }
    out
}

#[test]
fn starting_position_has_twenty_moves() {
    let g = Game::new();
    assert_eq!(all_legal_moves(g.current_board()).len(), 20);
    assert_eq!(g.board_state(), BoardState::Normal);
}

#[test]
fn starting_position_layout() {
    let b = Board::new();
    assert_eq!(b.piece_at(sq("e1")), pc(Color::White, PieceType::King));
    assert_eq!(b.piece_at(sq("d8")), pc(Color::Black, PieceType::Queen));
    assert_eq!(b.piece_at(sq("a2")), pc(Color::White, PieceType::Pawn));
    assert_eq!(b.piece_at(sq("h7")), pc(Color::Black, PieceType::Pawn));
    assert_eq!(b.piece_at(sq("e4")), None);
    assert_eq!(b.turn(), Color::White);
    assert_eq!(b.en_passant(), None);
    assert_eq!(b.halfmove_clock(), 0);
    assert_eq!(b.fullmove_number(), 1);
    let r = b.castling_rights();
    assert!(r.white_short && r.white_long && r.black_short && r.black_long);
}

#[test]
fn double_step_sets_and_clears_en_passant() {
    let mut g = Game::new();
    assert!(g.make_move(normal("e2", "e4")));
    assert_eq!(g.current_board().en_passant(), Some(sq("e3")));
    assert_eq!(g.current_board().turn(), Color::Black);
    assert!(g.make_move(normal("g8", "f6")));
    assert_eq!(g.current_board().en_passant(), None);
    assert_eq!(g.current_board().fullmove_number(), 2);
    assert_eq!(g.current_board().halfmove_clock(), 1);
}

#[test]
fn en_passant_capture_removes_passed_pawn() {
    let mut g = Game::new();
    for (f, t) in [("e2", "e4"), ("a7", "a6"), ("e4", "e5"), ("d7", "d5")] {
        assert!(g.make_move(normal(f, t)));
    }
    assert_eq!(g.current_board().en_passant(), Some(sq("d6")));
    assert!(g.make_move(normal("e5", "d6")));
    let b = g.current_board();
    assert_eq!(b.piece_at(sq("d6")), pc(Color::White, PieceType::Pawn));
    assert_eq!(b.piece_at(sq("d5")), None);
    assert_eq!(b.piece_at(sq("e5")), None);
    assert_eq!(b.halfmove_clock(), 0);
}

fn castling_board() -> Board {
    let mut b = Board::empty(Color::White);
    b.set_piece(sq("e1"), pc(Color::White, PieceType::King));
    b.set_piece(sq("h1"), pc(Color::White, PieceType::Rook));
    b.set_piece(sq("a1"), pc(Color::White, PieceType::Rook));
    b.set_piece(sq("e8"), pc(Color::Black, PieceType::King));
    b.set_castling_rights(CastlingRights {
        white_short: true,
        white_long: true,
        black_short: false,
        black_long: false,
    });
    b
}

#[test]
fn castling_offered_when_path_free() {
    let b = castling_board();
    let moves = b.get_legal_moves(sq("e1"));
    assert!(moves.contains(&Move::Castling(Castling::Short)));
    assert!(moves.contains(&Move::Castling(Castling::Long)));
    let mut after = b;
    after.apply(Move::Castling(Castling::Short));
    assert_eq!(after.piece_at(sq("g1")), pc(Color::White, PieceType::King));
    assert_eq!(after.piece_at(sq("f1")), pc(Color::White, PieceType::Rook));
    assert_eq!(after.piece_at(sq("e1")), None);
    assert_eq!(after.piece_at(sq("h1")), None);
    assert!(!after.castling_rights().white_short && !after.castling_rights().white_long);
}

#[test]
fn castling_refused_through_attacked_square() {
    let mut b = castling_board();
    b.set_piece(sq("f8"), pc(Color::Black, PieceType::Rook));
    let moves = b.get_legal_moves(sq("e1"));
    assert!(!moves.contains(&Move::Castling(Castling::Short)));
    assert!(moves.contains(&Move::Castling(Castling::Long)));
    let mut b2 = castling_board();
    b2.set_piece(sq("g8"), pc(Color::Black, PieceType::Rook));
    assert!(!b2.get_legal_moves(sq("e1")).contains(&Move::Castling(Castling::Short)));
}

#[test]
fn castling_refused_without_right_or_with_blocker() {
    let mut b = castling_board();
    b.set_piece(sq("b1"), pc(Color::White, PieceType::Knight));
    b.set_castling_rights(CastlingRights {
        white_short: false,
        white_long: true,
        black_short: false,
        black_long: false,
    });
    let moves = b.get_legal_moves(sq("e1"));
    assert!(!moves.contains(&Move::Castling(Castling::Short)));
    assert!(!moves.contains(&Move::Castling(Castling::Long)));
}

#[test]
fn rook_move_and_capture_revoke_rights() {
    let mut b = castling_board();
    b.set_piece(sq("h8"), pc(Color::Black, PieceType::Rook));
    b.set_castling_rights(CastlingRights {
        white_short: true,
        white_long: true,
        black_short: true,
        black_long: true,
    });
    b.apply(normal("h1", "h8"));
    let r = b.castling_rights();
    assert!(!r.white_short && r.white_long && !r.black_short && r.black_long);
    assert_eq!(b.halfmove_clock(), 0);
}

#[test]
fn pawn_to_last_rank_needs_target() {
    let pawn = Piece { color: Color::White, piece: PieceType::Pawn };
    assert_eq!(Move::new(pawn, sq("b7"), sq("b8")), None);
    let mut b = Board::empty(Color::White);
    b.set_piece(sq("b7"), Some(pawn));
    b.set_piece(sq("e1"), pc(Color::White, PieceType::King));
    b.set_piece(sq("h8"), pc(Color::Black, PieceType::King));
    let moves = b.get_legal_moves(sq("b7"));
    assert_eq!(moves.len(), 4);
    assert!(!moves.contains(&normal("b7", "b8")));
    let m = Move::Promotion { from: sq("b7"), to: sq("b8"), target: PieceType::Queen };
    assert!(moves.contains(&m));
    b.apply(m);
    assert_eq!(b.piece_at(sq("b8")), pc(Color::White, PieceType::Queen));
    assert_eq!(b.piece_at(sq("b7")), None);
}

#[test]
fn promotion_to_king_or_pawn_refused() {
    let mut b = Board::empty(Color::White);
    b.set_piece(sq("b7"), pc(Color::White, PieceType::Pawn));
    b.set_piece(sq("e1"), pc(Color::White, PieceType::King));
    b.set_piece(sq("h8"), pc(Color::Black, PieceType::King));
    let moves = b.get_legal_moves(sq("b7"));
    for t in [PieceType::King, PieceType::Pawn] {
        assert!(!moves.contains(&Move::Promotion { from: sq("b7"), to: sq("b8"), target: t }));
    }
}

#[test]
fn move_new_classifies() {
    let king = Piece { color: Color::White, piece: PieceType::King };
    assert_eq!(Move::new(king, sq("e1"), sq("g1")), Some(Move::Castling(Castling::Short)));
    assert_eq!(Move::new(king, sq("e1"), sq("c1")), Some(Move::Castling(Castling::Long)));
    assert_eq!(Move::new(king, sq("e1"), sq("f1")), Some(normal("e1", "f1")));
    let bpawn = Piece { color: Color::Black, piece: PieceType::Pawn };
    assert_eq!(Move::new(bpawn, sq("c2"), sq("c1")), None);
    assert_eq!(Move::new(bpawn, sq("c7"), sq("c5")), Some(normal("c7", "c5")));
}

#[test]
fn castling_projects_onto_home_rank() {
    let short = Move::Castling(Castling::Short);
    let long = Move::Castling(Castling::Long);
    assert_eq!(short.from(Color::White), sq("e1"));
    assert_eq!(short.to(Color::White), sq("g1"));
    assert_eq!(long.from(Color::Black), sq("e8"));
    assert_eq!(long.to(Color::Black), sq("c8"));
    assert_eq!(normal("a2", "a3").to(Color::Black), sq("a3"));
}

#[test]
fn square_diff_and_color_rules() {
    let d = sq("g1").diff(sq("e1"));
    assert_eq!((d.d_rank, d.d_file), (0, 2));
    let d = sq("a1").diff(sq("c3"));
    assert_eq!((d.d_rank, d.d_file), (-2, -2));
    assert_eq!(Color::White.opposite(), Color::Black);
    assert_eq!(Color::Black.home_rank(), 7);
    assert_eq!(Color::Black.forward(), -1);
    assert!(PieceType::Knight.is_promotion_target());
    assert!(!PieceType::King.is_promotion_target());
}

#[test]
fn fools_mate_is_checkmate() {
    let mut g = Game::new();
    for (f, t) in [("f2", "f3"), ("e7", "e5"), ("g2", "g4"), ("d8", "h4")] {
        assert!(g.make_move(normal(f, t)));
    }
    assert_eq!(g.board_state(), BoardState::Checkmate);
    assert_eq!(all_legal_moves(g.current_board()).len(), 0);
}

#[test]
fn cornered_king_is_stalemate() {
    let mut b = Board::empty(Color::Black);
    b.set_piece(sq("a8"), pc(Color::Black, PieceType::King));
    b.set_piece(sq("b6"), pc(Color::White, PieceType::Queen));
    b.set_piece(sq("h1"), pc(Color::White, PieceType::King));
    assert!(!king_in_check(&b, Color::Black));
    assert_eq!(all_legal_moves(&b).len(), 0);
    assert_eq!(chess_engine::game::state_of_board(&b), BoardState::Stalemate);
}

#[test]
fn check_is_reported() {
    let mut g = Game::new();
    for (f, t) in [("e2", "e4"), ("f7", "f6"), ("d1", "h5")] {
        assert!(g.make_move(normal(f, t)));
    }
    assert_eq!(g.board_state(), BoardState::Check);
}

#[test]
fn board_state_twice_is_same() {
    let mut g = Game::new();
    assert_eq!(g.board_state(), g.board_state());
    assert!(g.make_move(normal("d2", "d4")));
    let first = g.board_state();
    let second = g.board_state();
    assert_eq!(first, second);
}

#[test]
fn fifty_move_rule_draws() {
    let mut b = Board::new();
    for _ in 0..100 {
        let m = if b.turn() == Color::White {
            if b.piece_at(sq("g1")).is_some() { normal("g1", "f3") } else { normal("f3", "g1") }
        } else if b.piece_at(sq("g8")).is_some() {
            normal("g8", "f6")
        } else {
            normal("f6", "g8")
        };
        b.apply(m);
    }
    assert_eq!(b.halfmove_clock(), 100);
    assert_eq!(chess_engine::game::state_of_board(&b), BoardState::Draw);
}

#[test]
fn illegal_move_leaves_game_unchanged() {
    let mut g = Game::new();
    let before = Board::new();
    assert!(!g.make_move(normal("e2", "e5")));
    assert!(!g.make_move(normal("e7", "e5")));
    assert!(!g.make_move(normal("b1", "d2")));
    assert!(!g.make_move(Move::Castling(Castling::Short)));
    assert_eq!(*g.current_board(), before);
    assert_eq!(g.history().len(), 0);
}

#[test]
fn pinned_piece_cannot_expose_king() {
    let mut b = Board::empty(Color::White);
    b.set_piece(sq("e1"), pc(Color::White, PieceType::King));
    b.set_piece(sq("e2"), pc(Color::White, PieceType::Bishop));
    b.set_piece(sq("e8"), pc(Color::Black, PieceType::Rook));
    b.set_piece(sq("a8"), pc(Color::Black, PieceType::King));
    assert_eq!(b.get_legal_moves(sq("e2")).len(), 0);
    assert!(!b.pseudo_legal_moves(sq("e2")).is_empty());
}

#[test]
fn legal_moves_never_leave_king_attacked() {
    let mut g = Game::new();
    for (f, t) in [("e2", "e4"), ("d7", "d5"), ("f1", "b5"), ("c7", "c6")] {
        assert!(g.make_move(normal(f, t)));
    }
    let b = g.current_board();
    let moves = all_legal_moves(b);
    assert!(!moves.is_empty());
    for m in moves {
        let mut after = b.copy();
        after.apply(m);
        assert!(!king_in_check(&after, Color::White));
    }
}

#[test]
fn attack_detection_sees_sliders_and_blocks() {
    let b = Board::new();
    assert!(is_attacked(&b, sq("f3"), Color::White));
    assert!(!is_attacked(&b, sq("e4"), Color::White));
    assert!(is_attacked(&b, sq("d6"), Color::Black));
    assert!(!is_attacked(&b, sq("d1"), Color::Black));
}

#[test]
fn undo_replays_history() {
    let mut g = Game::new();
    assert!(g.make_move(normal("e2", "e4")));
    let after_one = g.current_board().copy();
    assert!(g.make_move(normal("e7", "e5")));
    assert!(g.make_move(normal("g1", "f3")));
    assert!(g.undo());
    assert!(g.undo());
    assert_eq!(*g.current_board(), after_one);
    assert_eq!(g.history().len(), 1);
    assert!(g.undo());
    assert_eq!(*g.current_board(), Board::new());
    assert!(!g.undo());
}

#[test]
fn replay_reproduces_current_board() {
    let mut g = Game::new();
    for (f, t) in [("d2", "d4"), ("g8", "f6"), ("c2", "c4"), ("e7", "e6")] {
        assert!(g.make_move(normal(f, t)));
    }
    let replayed = chess_engine::game::replay_moves(g.history(), g.history().len());
    assert_eq!(replayed, *g.current_board());
}

#[test]
fn independent_games() {
    let mut a = Game::new();
    let b = Game::new();
    assert!(a.make_move(normal("e2", "e4")));
    assert_eq!(*b.current_board(), Board::new());
    assert_ne!(*a.current_board(), *b.current_board());
}


#[test]
fn move_notation() {
    assert_eq!(normal("e2", "e4").notation(), "e2e4");
    assert_eq!(normal("a1", "h8").notation(), "a1h8");
    assert_eq!(Move::Castling(Castling::Short).notation(), "O-O");
    assert_eq!(Move::Castling(Castling::Long).notation(), "O-O-O");
    let m = Move::Promotion { from: sq("e7"), to: sq("e8"), target: PieceType::Queen };
    assert_eq!(m.notation(), "e7e8=Q");
    let m = Move::Promotion { from: sq("b2"), to: sq("a1"), target: PieceType::Knight };
    assert_eq!(m.notation(), "b2a1=N");
}
