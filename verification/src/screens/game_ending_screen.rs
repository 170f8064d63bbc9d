//! The screen that names the winner.

pub mod screen;
