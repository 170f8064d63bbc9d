//! The screens of the game and the state each of them keeps.

pub mod game_ending_screen;
pub mod game_initialization_screen;
pub mod game_main_screen;
pub mod game_screen;
pub mod main_menu;
pub mod pause_menu;
