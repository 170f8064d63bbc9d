use vstd::prelude::*;

use crate::app::App;
use crate::entities::player::Player;
use crate::event::KeyInput;

verus! {

/// The end of a match: who has won.
pub struct GameEndingScreen {
    pub player: Player,
}

impl GameEndingScreen {
    pub fn new(player: Player) -> (screen: GameEndingScreen)
        ensures
            screen.player == player,
    {
        GameEndingScreen { player }
    }

    /// Any key ends the program.
    pub fn handle_key_event(&mut self, key_event: KeyInput, app: &mut App)
        ensures
            final(self).player == old(self).player,
            final(app).should_quit,
            final(app).current_screen == old(app).current_screen,
    {
        app.should_quit = true;
    }
}

} // verus!
