//! A chess rules engine: board positions, legal move generation, move
//! application (castling, en passant, promotion) and game-state
//! classification, with the rules stated and proved in Verus.
pub mod piece;
pub mod square;
pub mod move_types;
pub mod board;
pub mod movegen;
pub mod game;

pub use piece::{Color, Piece, PieceType};
pub use square::{SquareDiff, SquareSpec};
pub use move_types::{Castling, Move};
pub use board::{Board, CastlingRights};
pub use game::{BoardState, Game};
