//! Rules engine of a four-colour cross-and-circle board game: the board and
//! its cyclic path, pawns and players, the turn state machine and the move
//! engine, each with machine-checked contracts.

pub mod app;
pub mod constants;
pub mod custom_widgets;
pub mod entities;
pub mod event;
pub mod screens;
pub mod text;
pub mod ui;
pub mod utils;
