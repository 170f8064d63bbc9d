//! The match itself: whose turn it is, what a move may do, and what it does.

pub mod current_player;
pub mod event_handler;
pub mod game;
pub mod keys;
pub mod laws;
pub mod lockstep;
pub mod move_type;
pub mod reachable;
pub mod restore;
pub mod screen;
pub mod setup;
pub mod turn;
