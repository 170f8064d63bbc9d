//! The pieces of the game: fields, pawns, players and the board they share.

pub mod field;
pub mod pawn;
pub mod player;
pub mod board;
