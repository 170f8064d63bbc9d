use vstd::prelude::*;

use crate::app::App;
use crate::entities::pawn::PawnColor;
use crate::entities::player::Player;
use crate::event::KeyInput;
use crate::screens::game_ending_screen::screen::GameEndingScreen;
use crate::screens::game_initialization_screen::screen::GameInitializationScreen;
use crate::screens::game_main_screen::keys::FileRequests;
use crate::screens::game_main_screen::restore::copy_players;
use crate::screens::game_main_screen::screen::is_fresh_roster;
use crate::screens::game_main_screen::screen::GameMainScreen;
use crate::screens::pause_menu::fs::FileInfo;

verus! {

/// The part of a game that is on: seating the players, the match, the ending.
#[derive(Debug, Copy, PartialEq, Eq, Clone, Structural)]
pub enum GamePhase {
    INITIALIZATION,
    MAIN,
    ENDING,
}

/// A game from the seating of the players to the naming of the winner.
pub struct GameScreen {
    pub should_quit: bool,
    pub previous_phase: GamePhase,
    pub phase: GamePhase,
    pub game_initialization_screen: GameInitializationScreen,
    pub game_main_screen: Option<GameMainScreen>,
    pub game_ending_screen: Option<GameEndingScreen>,
}

/// Red and yellow, as they sit down to a match for two.
fn red_and_yellow() -> (players: Vec<Player>)
    ensures
        is_fresh_roster(players@),
        players.len() == 2,
        players[0].is_fresh(0, 1, PawnColor::RED),
        players[1].is_fresh(1, 4, PawnColor::YELLOW),
{
    let mut players: Vec<Player> = Vec::new();
    players.push(Player::new(0, 1, PawnColor::RED));
    players.push(Player::new(1, 4, PawnColor::YELLOW));
    players
}

impl GameScreen {
    /// The wizard takes keys only while it is unfinished, and a match that is on is in a
    /// state that play can reach.
    pub open spec fn wf(self) -> bool {
        &&& self.game_initialization_screen.wf()
        &&& (self.phase == GamePhase::INITIALIZATION
            ==> !self.game_initialization_screen.is_game_initialized)
        &&& (self.game_main_screen matches Some(game) ==> game@.wf() && game.pause_menu.wf())
    }

    /// Whether the game is in a state that its keys can reach.
    pub fn is_consistent(&self) -> (ok: bool)
        ensures
            ok == self.wf(),
    {
        if !self.game_initialization_screen.is_consistent() {
            return false;
        }
        if self.phase == GamePhase::INITIALIZATION
            && self.game_initialization_screen.is_game_initialized {
            return false;
        }
        match &self.game_main_screen {
            Some(game) => game.is_reachable() && game.pause_menu.selected_button_id
                < game.pause_menu.buttons.len(),
            None => true,
        }
    }

    /// A game that goes straight to a match.
    pub fn new() -> (screen: GameScreen)
        ensures
            screen.wf(),
            !screen.should_quit,
            screen.previous_phase == GamePhase::INITIALIZATION,
            screen.phase == GamePhase::MAIN,
            screen.game_main_screen is None,
            screen.game_ending_screen is None,
    {
        GameScreen {
            should_quit: false,
            previous_phase: GamePhase::INITIALIZATION,
            phase: GamePhase::MAIN,
            game_initialization_screen: GameInitializationScreen::new(),
            game_main_screen: None,
            game_ending_screen: None,
        }
    }

    /// One key press, given the saves now on disk. The key goes to the screen of the
    /// phase that is on. A finished wizard starts the match with the players it has
    /// seated; a match without players is started for red and yellow; a match with a
    /// winner gives way to the ending, which any key leaves.
    pub fn handle_key_event(&mut self, key_event: KeyInput, app: &mut App, save_files: &Vec<FileInfo>) -> (requests:
        FileRequests)
        requires
            old(self).wf(),
        ensures
            final(self).wf(),
            old(self).phase != GamePhase::MAIN || old(self).game_main_screen is None
                ==> requests.is_nothing(),
            old(self).phase == GamePhase::INITIALIZATION ==> {
                &&& exists|dice: usize|
                    1 <= dice <= 6 && #[trigger] GameInitializationScreen::keyed(
                        old(self).game_initialization_screen,
                        final(self).game_initialization_screen,
                        key_event,
                        dice,
                    )
                &&& if final(self).game_initialization_screen.is_game_initialized {
                    &&& final(self).phase == GamePhase::MAIN
                    &&& final(self).previous_phase == GamePhase::INITIALIZATION
                    &&& final(self).game_main_screen matches Some(game)
                    &&& game.is_opening(
                        final(self).game_initialization_screen.players@,
                        save_files@,
                    )
                } else {
                    &&& final(self).phase == GamePhase::INITIALIZATION
                    &&& final(self).previous_phase == old(self).previous_phase
                    &&& final(self).game_main_screen == old(self).game_main_screen
                }
                &&& final(self).game_ending_screen == old(self).game_ending_screen
                &&& *final(app) == *old(app)
                &&& final(self).should_quit == old(self).should_quit
            },
            old(self).phase == GamePhase::MAIN && old(self).game_main_screen is None ==> {
                &&& final(self).phase == GamePhase::MAIN
                &&& final(self).previous_phase == old(self).previous_phase
                &&& final(self).game_main_screen matches Some(game)
                &&& game@.players.len() == 2
                &&& game@.players[0].is_fresh(0, 1, PawnColor::RED)
                &&& game@.players[1].is_fresh(1, 4, PawnColor::YELLOW)
                &&& game.is_opening(game@.players, save_files@)
                &&& final(self).game_initialization_screen == old(self).game_initialization_screen
                &&& final(self).game_ending_screen == old(self).game_ending_screen
                &&& *final(app) == *old(app)
                &&& final(self).should_quit == old(self).should_quit
            },
            old(self).phase == GamePhase::MAIN && old(self).game_main_screen is Some ==> {
                &&& final(self).game_main_screen is Some
                &&& GameMainScreen::key_handled(
                    old(self).game_main_screen->0,
                    final(self).game_main_screen->0,
                    key_event,
                    *old(app),
                    *final(app),
                    save_files@,
                    requests,
                )
                &&& final(self).should_quit == (old(self).should_quit || final(app).should_quit)
                &&& final(self).game_initialization_screen == old(self).game_initialization_screen
                &&& final(self).phase != GamePhase::ENDING ==> final(self).game_ending_screen == old(self).game_ending_screen && final(self).previous_phase == old(self).previous_phase
                &&& final(self).phase == GamePhase::ENDING ==> final(self).previous_phase
                    == GamePhase::MAIN
                &&& final(self).phase == (if final(self).game_main_screen->0.is_game_finished
                    && final(self).game_main_screen->0.game_winner is Some {
                    GamePhase::ENDING
                } else {
                    GamePhase::MAIN
                })
                &&& final(self).phase == GamePhase::ENDING ==> (final(self).game_ending_screen matches Some(ending) && Some(ending.player)
                    == final(self).game_main_screen->0.game_winner)
            },
            old(self).phase == GamePhase::ENDING ==> {
                &&& final(self).phase == GamePhase::ENDING
                &&& final(self).game_ending_screen is Some
                &&& final(self).game_ending_screen->0.player == (match old(self).game_ending_screen {
                    Some(ending) => ending.player,
                    None => final(self).game_ending_screen->0.player,
                })
                &&& (old(self).game_ending_screen is None ==> final(self).game_ending_screen->0.player.is_fresh(0, 1, PawnColor::RED))
                &&& final(app).current_screen == old(app).current_screen
                &&& final(self).should_quit == old(self).should_quit
                &&& final(self).previous_phase == old(self).previous_phase
                &&& final(self).game_initialization_screen == old(self).game_initialization_screen
                &&& final(self).game_main_screen == old(self).game_main_screen
                &&& final(app).should_quit == (old(app).should_quit || old(self).game_ending_screen is Some)
            },
    {
        let nothing = FileRequests { delete: None, save: None, load: None };
        match self.phase {
            GamePhase::INITIALIZATION => {
                self.game_initialization_screen.handle_key_event(key_event);

                if self.game_initialization_screen.is_game_initialized {
                    self.previous_phase = GamePhase::INITIALIZATION;
                    self.game_main_screen = Some(
                        GameMainScreen::new(
                            copy_players(&self.game_initialization_screen.players),
                            save_files,
                        ),
                    );
                    self.phase = GamePhase::MAIN;
                }
                nothing
            },
            GamePhase::MAIN => {
                match self.game_main_screen.take() {
                    Some(mut game_main_screen) => {
                        let requests = game_main_screen.handle_key_event(key_event, app, save_files);

                        if app.should_quit == true {
                            self.should_quit = true;
                        }
                        if game_main_screen.is_game_finished {
                            if let Some(winner) = game_main_screen.game_winner {
                                self.previous_phase = GamePhase::MAIN;
                                self.game_ending_screen = Some(GameEndingScreen::new(winner));
                                self.phase = GamePhase::ENDING;
                            }
                        }
                        self.game_main_screen = Some(game_main_screen);
                        requests
                    },
                    None => {
                        self.game_main_screen = Some(
                            GameMainScreen::new(red_and_yellow(), save_files),
                        );
                        nothing
                    },
                }
            },
            GamePhase::ENDING => {
                match self.game_ending_screen.take() {
                    Some(mut game_ending_screen) => {
                        game_ending_screen.handle_key_event(key_event, app);
                        self.game_ending_screen = Some(game_ending_screen);
                    },
                    None => {
                        self.game_ending_screen = Some(
                            GameEndingScreen::new(Player::new(0, 1, PawnColor::RED)),
                        );
                    },
                }
                nothing
            },
        }
    }
}

} // verus!
