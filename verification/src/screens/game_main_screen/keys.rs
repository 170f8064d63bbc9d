//! What each key does to a match.

use vstd::prelude::*;

use super::current_player::CurrentPlayer;
use super::event_handler::lemma_progress_wf;
use super::event_handler::MainEventHandler;
use super::lockstep::lemma_move_wf;
use super::move_type::BadMoveType;
use super::move_type::GoodMoveType;
use super::screen::field_diff;
use super::screen::in_grid;
use super::screen::lemma_path_cell;
use super::screen::lemma_slot_of;
use super::screen::slot_of;
use super::screen::spec_field_diff;
use super::screen::GameMainScreen;
use super::screen::GameState;
use super::screen::GameView;
use super::screen::PlayerAction;
use super::turn::lemma_start_on_ring;
use crate::app::App;
use crate::entities::board::layout_kind;
use crate::entities::board::lemma_ring_cell;
use crate::entities::field::Field;
use crate::event::KeyInput;
use crate::screens::pause_menu::fs::FileInfo;
use crate::screens::pause_menu::screen::PauseMenu;
use crate::screens::pause_menu::screen::PauseMenuState;
use crate::text::decimal;
use crate::text::number_text;

verus! {

/// The line shown after a move that ends the turn or captures.
pub open spec fn valid_move_text() -> Seq<char> {
    "Valid move! \n\n Press SPACE to continue."@
}

/// The line shown to a player who has rolled a six and plays again.
pub open spec fn again_text() -> Seq<char> {
    "You have rolled a 6! Your turn again \n\n Press SPACE to roll."@
}

/// The line shown when a move is refused: the reason, and what to do about it. For a
/// target out of reach, `roll` is what was rolled and `away` how far the target lies;
/// for a wrong entry cell and a final cell beyond an occupied one, `picked` is the
/// index of the pawn.
pub open spec fn refusal_text(bad: BadMoveType, roll: usize, away: usize, picked: usize) -> Seq<
    char,
> {
    match bad {
        BadMoveType::StartOccupied => bad.spec_text()
            + " \n\n Press BACKSPCE to select a pawn that is on board."@,
        BadMoveType::CantEatOwnPawn => bad.spec_text() + " \n\n Move to another field."@,
        BadMoveType::DidntRoll6 => bad.spec_text()
            + " \n\n Press BACKSPACE to select another pawn."@,
        BadMoveType::UnreachableField => bad.spec_text() + " \n\n You rolled a "@ + decimal(
            roll as nat,
        ) + " but the field is "@ + decimal(away as nat) + " fields away."@,
        BadMoveType::WrongStart | BadMoveType::CantSkipSafehousePawn => bad.spec_text()
            + " \n\n Select a new position for pawn "@ + decimal((picked + 1) as nat) + " \n"@,
        BadMoveType::Generic => bad.spec_text(),
    }
}

/// What the caller is to do on disk after a key press in the pause menu, in this
/// order: remove a save, write the match to a save, read the match from a save.
pub struct FileRequests {
    /// File name of the save to remove. After removing it the caller reads the
    /// directory again and stores the listing in the save dialog.
    pub delete: Option<String>,
    /// Name under which to save the match.
    pub save: Option<String>,
    /// Name of the save to load; the caller hands the match read to `finish_load`.
    pub load: Option<String>,
}

impl FileRequests {
    /// Nothing is asked for.
    pub open spec fn is_nothing(self) -> bool {
        self.delete is None && self.save is None && self.load is None
    }
}

impl GameView {
    /// The field on which the picked pawn stands.
    pub open spec fn picked_field(self) -> Field {
        self.cell(
            self.pawn(
                self.curr_player.id as int,
                self.curr_player.selected_pawn_id->0 as int,
            ).position,
        )
    }

    /// The state with the first winner, if there is one, recorded.
    pub open spec fn judged(self) -> GameView {
        match self.winner() {
            Some(p) => GameView {
                is_game_finished: true,
                game_winner: Some(self.players[p]),
                ..self
            },
            None => self,
        }
    }

    /// The line shown when the picked pawn may not go where the hover rests.
    pub open spec fn refusal(self, bad: BadMoveType) -> Seq<char> {
        refusal_text(
            bad,
            self.curr_player.roll->0,
            spec_field_diff(
                slot_of(self.path_map, self.curr_player.curr_hover_position)->0 as int,
                slot_of(self.path_map, self.picked_field().pawn->0.position)->0 as int,
            ) as usize,
            self.curr_player.selected_pawn_id->0,
        )
    }

    /// The state after Enter. While a target is sought, the picked pawn is moved to the
    /// cell under the hover if the move is legal: a pawn that enters the ring goes to its
    /// player's entry cell, any other pawn to the target, and the move ends the turn. A
    /// pawn that enters or captures is announced. A refused move changes the message
    /// only. Either way a winner is looked for afterwards. At any other time Enter does
    /// nothing.
    pub open spec fn entered(self) -> GameView {
        if self.curr_player.player_action != PlayerAction::Hovering {
            self
        } else {
            let f = self.picked_field();
            let target = self.curr_player.curr_hover_position;
            let done = CurrentPlayer { player_action: PlayerAction::Playing, ..self.curr_player };
            (match self.verdict(f, target) {
                Ok(GoodMoveType::Start) => GameView {
                    message: valid_move_text(),
                    curr_player: done,
                    ..self.moved(f, self.current().start_pos)
                },
                Ok(GoodMoveType::Move) | Ok(GoodMoveType::EatMove) => if self.captures(f, target) {
                    GameView {
                        message: valid_move_text(),
                        curr_player: done,
                        ..self.moved(f, target)
                    }
                } else {
                    GameView { curr_player: done, ..self.moved(f, target) }
                },
                Ok(GoodMoveType::Safehouse) => self,
                Err(bad) => GameView { message: self.refusal(bad), ..self },
            }).judged()
        }
    }

    /// The state after the space bar, where `dice` is what a throw of the dice shows. At
    /// the end of a turn the same player plays again after a six, and the turn passes on
    /// otherwise. At any other time the space bar rolls the dice.
    pub open spec fn spaced(self, dice: usize) -> GameView {
        if self.curr_player.player_action == PlayerAction::Playing {
            if self.curr_player.roll matches Some(roll) && roll >= 6 {
                GameView {
                    message: again_text(),
                    curr_player: self.curr_player.restarted(),
                    ..self
                }
            } else {
                self.next_turn()
            }
        } else {
            self.rolled(dice)
        }
    }

    /// The state of a running match after `key`, where `dice` is what a throw of the dice
    /// shows. Keys that the match does not know change nothing.
    pub open spec fn keyed(self, key: KeyInput, dice: usize) -> GameView {
        match key {
            KeyInput::Esc => GameView { state: GameState::PAUSED, ..self },
            KeyInput::Up | KeyInput::Down | KeyInput::Left | KeyInput::Right => self.steered(key),
            KeyInput::Enter => self.entered(),
            KeyInput::Backspace => if self.curr_player.player_action == PlayerAction::Hovering {
                self.unselected()
            } else {
                self
            },
            KeyInput::Char(c) => if c == '1' || c == '2' || c == '3' || c == '4' {
                self.pawn_picked(key)
            } else if c == ' ' {
                self.spaced(dice)
            } else {
                self
            },
            KeyInput::Other => self,
        }
    }
}

/// The move that a favourable verdict allows goes to a cell of the grid that is no
/// resting cell and holds no pawn of the mover's colour: the player's entry cell for a
/// pawn that enters the ring, the target otherwise.
pub proof fn lemma_verdict_ok(s: GameView, k: int, target: (usize, usize))
    requires
        s.wf(),
        0 <= k < 4,
        in_grid(target),
        s.verdict(s.cell(s.pawn(s.curr_player.id as int, k).position), target) is Ok,
    ensures
        ({
            let f = s.cell(s.pawn(s.curr_player.id as int, k).position);
            let goes_to = if s.verdict(f, target) == Ok::<GoodMoveType, BadMoveType>(
                GoodMoveType::Start,
            ) {
                s.current().start_pos
            } else {
                target
            };
            &&& f.pawn == Some(s.pawn(s.curr_player.id as int, k))
            &&& in_grid(f.position)
            &&& f == s.cell(f.position)
            &&& in_grid(goes_to)
            &&& !layout_kind(goes_to.0 as int, goes_to.1 as int).is_home()
            &&& !(s.cell(goes_to).pawn matches Some(hp) && hp.color == f.pawn->0.color)
            &&& s.verdict(f, target) != Ok::<GoodMoveType, BadMoveType>(GoodMoveType::EatMove)
            &&& s.verdict(f, target) != Ok::<GoodMoveType, BadMoveType>(GoodMoveType::Safehouse)
        }),
{
    let me = s.current();
    let sp = s.pawn(s.curr_player.id as int, k);
    let f = s.cell(sp.position);
    assert(f.position == sp.position);
    assert(me.owns_pawn(k));
    assert(me.has_layout_of_color());
    if f.kind == me.home_field_kind {
        lemma_start_on_ring(me.pawn_color);
        lemma_ring_cell(10 * me.pawn_color.spec_ordinal());
    } else {
        lemma_slot_of(s.path_map, target);
        let to = slot_of(s.path_map, target)->0;
        lemma_path_cell(s, to);
        let goal = s.cell(target);
        assert(goal.kind == layout_kind(target.0 as int, target.1 as int));
        if goal.kind == me.safehouse_kind && s.top_safehouse() is None {
            assert(to >= 40);
            let i = to - 40;
            assert(target == me.safehouse_pos[i]);
            assert(s.cell(me.safehouse_pos[0]).pawn is None);
            assert(s.cell(me.safehouse_pos[1]).pawn is None);
            assert(s.cell(me.safehouse_pos[2]).pawn is None);
            assert(s.cell(me.safehouse_pos[3]).pawn is None);
        }
    }
}

impl GameMainScreen {
    /// What a key makes of a match and of the program's state, given the saves on disk,
    /// and what it asks of the disk. While the pause menu is up the key goes to the
    /// menu; then the match resumes, asks for a save or a load, or asks the program to
    /// end, as the menu then stands. A running match takes the key itself, with some
    /// throw of the dice where the key rolls them, and asks nothing of the disk.
    pub open spec fn key_handled(
        before: GameMainScreen,
        after: GameMainScreen,
        key_event: KeyInput,
        app_before: App,
        app_after: App,
        save_files: Seq<FileInfo>,
        requests: FileRequests,
    ) -> bool {
        if before.state == GameState::RUNNING {
            &&& exists|dice: usize| 1 <= dice <= 6 && after@ == #[trigger] before@.keyed(key_event, dice)
            &&& requests.is_nothing()
            &&& app_after == app_before
        } else {
            &&& PauseMenu::keyed(
                before.pause_menu,
                after.pause_menu,
                key_event,
                save_files,
                requests.delete,
            )
            &&& after@ == (GameView {
                state: if after.pause_menu.state == PauseMenuState::Resume {
                    GameState::RUNNING
                } else {
                    GameState::PAUSED
                },
                pause_menu: after.pause_menu,
                ..before@
            })
            &&& app_after.current_screen == app_before.current_screen
            &&& app_after.should_quit == (app_before.should_quit || after.pause_menu.state
                == PauseMenuState::Exit)
            &&& (requests.save is Some <==> after.pause_menu.state == PauseMenuState::Saved)
            &&& (requests.save matches Some(name) ==> name@
                == after.pause_menu.save_state.save_file_name@)
            &&& (requests.load is Some <==> after.pause_menu.state == PauseMenuState::Loaded)
            &&& (requests.load matches Some(name) ==> name@
                == after.pause_menu.load_state.load_file_name@)
        }
    }

    /// Records the first winner, if there is one.
    fn judge(&mut self)
        requires
            old(self)@.wf(),
        ensures
            final(self)@ == old(self)@.judged(),
            final(self)@.wf(),
    {
        match self.check_winner() {
            Ok(player_id) => {
                proof {
                    assert(old(self)@.is_first_winner(player_id as int)) by {
                        let c = choose|c: int| old(self)@.is_first_winner(c);
                        assert(old(self)@.is_first_winner(c));
                    }
                }
                self.is_game_finished = true;
                self.game_winner = Some(self.players[player_id]);
                proof {
                    lemma_progress_wf(old(self)@, self@);
                }
            },
            _ => {},
        }
    }

    /// Moves the picked pawn from its resting cell to the player's entry cell, which ends
    /// the turn.
    fn enter_ring(&mut self, picked: usize)
        requires
            old(self)@.wf(),
            old(self).curr_player.selected_pawn_id == Some(picked),
            old(self)@.verdict(old(self)@.picked_field(), old(self).curr_player.curr_hover_position)
                == Ok::<GoodMoveType, BadMoveType>(GoodMoveType::Start),
        ensures
            final(self)@ == (GameView {
                message: valid_move_text(),
                curr_player: CurrentPlayer {
                    player_action: PlayerAction::Playing,
                    ..old(self).curr_player
                },
                ..old(self)@.moved(old(self)@.picked_field(), old(self)@.current().start_pos)
            }),
            final(self)@.wf(),
    {
        let ghost s = self@;
        proof {
            let _ = s.pawn(s.curr_player.id as int, picked as int);
            lemma_verdict_ok(s, picked as int, s.curr_player.curr_hover_position);
        }
        let mut selected_pawn_field: Field = self.get_pawn_field(picked);
        let start_pos: (usize, usize) = self.players[self.curr_player.id].start_pos;
        let _ = self.move_pawn(&mut selected_pawn_field, start_pos);
        let ghost moved = self@;
        self.message = String::from_str("Valid move! \n\n Press SPACE to continue.");
        self.curr_player.player_action = PlayerAction::Playing;
        proof {
            lemma_move_wf(s, s.picked_field(), start_pos);
            lemma_progress_wf(moved, self@);
        }
    }

    /// Moves the picked pawn to the cell under the hover, which ends the turn; a capture
    /// is announced.
    fn advance(&mut self, picked: usize)
        requires
            old(self)@.wf(),
            old(self).curr_player.selected_pawn_id == Some(picked),
            old(self)@.verdict(old(self)@.picked_field(), old(self).curr_player.curr_hover_position)
                == Ok::<GoodMoveType, BadMoveType>(GoodMoveType::Move),
        ensures
            final(self)@ == (if old(self)@.captures(
                old(self)@.picked_field(),
                old(self).curr_player.curr_hover_position,
            ) {
                GameView {
                    message: valid_move_text(),
                    curr_player: CurrentPlayer {
                        player_action: PlayerAction::Playing,
                        ..old(self).curr_player
                    },
                    ..old(self)@.moved(
                        old(self)@.picked_field(),
                        old(self).curr_player.curr_hover_position,
                    )
                }
            } else {
                GameView {
                    curr_player: CurrentPlayer {
                        player_action: PlayerAction::Playing,
                        ..old(self).curr_player
                    },
                    ..old(self)@.moved(
                        old(self)@.picked_field(),
                        old(self).curr_player.curr_hover_position,
                    )
                }
            }),
            final(self)@.wf(),
    {
        let ghost s = self@;
        let target: (usize, usize) = self.curr_player.curr_hover_position;
        proof {
            let _ = s.pawn(s.curr_player.id as int, picked as int);
            lemma_verdict_ok(s, picked as int, target);
        }
        let mut selected_pawn_field: Field = self.get_pawn_field(picked);
        let performed = self.move_pawn(&mut selected_pawn_field, target);
        let ghost moved = self@;
        proof {
            lemma_move_wf(s, s.picked_field(), target);
        }
        match performed {
            Ok(GoodMoveType::EatMove) => {
                self.message = String::from_str("Valid move! \n\n Press SPACE to continue.");
            },
            _ => {},
        }
        self.curr_player.player_action = PlayerAction::Playing;
        proof {
            lemma_progress_wf(moved, self@);
        }
    }

    /// Tells the player why the picked pawn may not go where the hover rests.
    fn refuse(&mut self, bad_move_type: BadMoveType, picked: usize)
        requires
            old(self)@.wf(),
            old(self).curr_player.selected_pawn_id == Some(picked),
            old(self)@.verdict(old(self)@.picked_field(), old(self).curr_player.curr_hover_position)
                == Err::<GoodMoveType, BadMoveType>(bad_move_type),
        ensures
            final(self)@ == (GameView { message: old(self)@.refusal(bad_move_type), ..old(self)@ }),
            final(self)@.wf(),
    {
        let ghost s = self@;
        let target: (usize, usize) = self.curr_player.curr_hover_position;
        let mut message = bad_move_type.to_string();
        match bad_move_type {
            BadMoveType::StartOccupied => {
                message.append(" \n\n Press BACKSPCE to select a pawn that is on board.");
            },
            BadMoveType::CantEatOwnPawn => {
                message.append(" \n\n Move to another field.");
            },
            BadMoveType::DidntRoll6 => {
                message.append(" \n\n Press BACKSPACE to select another pawn.");
            },
            BadMoveType::UnreachableField => {
                proof {
                    let _ = s.pawn(s.curr_player.id as int, picked as int);
                }
                let roll: usize = match self.curr_player.roll {
                    Some(roll) => roll,
                    None => 0,
                };
                let pawn_field_flat: usize = match self.flat_from_pos(
                    self.get_current_pawn().position,
                ) {
                    Some(slot) => slot,
                    None => 0,
                };
                let new_field_flat: usize = match self.flat_from_pos(target) {
                    Some(slot) => slot,
                    None => 0,
                };
                message.append(" \n\n You rolled a ");
                let rolled = number_text(roll);
                message.append(rolled.as_str());
                message.append(" but the field is ");
                let away = number_text(field_diff(new_field_flat, pawn_field_flat));
                message.append(away.as_str());
                message.append(" fields away.");
            },
            BadMoveType::WrongStart | BadMoveType::CantSkipSafehousePawn => {
                message.append(" \n\n Select a new position for pawn ");
                let number = number_text(picked + 1);
                message.append(number.as_str());
                message.append(" \n");
            },
            BadMoveType::Generic => {},
        }
        self.message = message;
        proof {
            lemma_progress_wf(s, self@);
        }
    }

    /// Enter while a target is sought: tries the move of the picked pawn to the cell under
    /// the hover.
    fn handle_enter(&mut self)
        requires
            old(self)@.wf(),
        ensures
            final(self)@ == old(self)@.entered(),
            final(self)@.wf(),
    {
        if self.curr_player.player_action != PlayerAction::Hovering {
            return ;
        }
        let ghost s = self@;
        let picked: usize = self.curr_player.selected_pawn_id.unwrap();
        proof {
            let _ = s.pawn(s.curr_player.id as int, picked as int);
        }
        let selected_pawn_field: Field = self.get_pawn_field(picked);
        let target: (usize, usize) = self.curr_player.curr_hover_position;

        match self.is_valid_move(&selected_pawn_field, &target) {
            Ok(good_move_type) => {
                proof {
                    lemma_verdict_ok(s, picked as int, target);
                }
                match good_move_type {
                    GoodMoveType::Start => self.enter_ring(picked),
                    GoodMoveType::Move | GoodMoveType::EatMove => self.advance(picked),
                    GoodMoveType::Safehouse => {},
                }
            },
            Err(bad_move_type) => self.refuse(bad_move_type, picked),
        }
        self.judge();
    }

    /// The space bar: at the end of a turn the same player plays again after a six and
    /// the turn passes on otherwise; at any other time the dice are rolled.
    fn handle_space(&mut self)
        requires
            old(self)@.wf(),
        ensures
            exists|dice: usize| 1 <= dice <= 6 && final(self)@ == #[trigger] old(self)@.spaced(dice),
            final(self)@.wf(),
    {
        match self.curr_player.player_action {
            PlayerAction::Playing => {
                let again: bool = match self.curr_player.roll {
                    Some(roll) => roll >= 6,
                    None => false,
                };
                if again {
                    self.message = String::from_str(
                        "You have rolled a 6! Your turn again \n\n Press SPACE to roll.",
                    );
                    self.curr_player.repeat_turn();
                    proof {
                        lemma_progress_wf(old(self)@, self@);
                    }
                } else {
                    self.next_player();
                }
                assert(self@ == old(self)@.spaced(1));
            },
            _ => {
                MainEventHandler::handle_roll(self, None);
                proof {
                    let roll = choose|roll: usize|
                        1 <= roll <= 6 && self@ == #[trigger] old(self)@.rolled(roll);
                    assert(self@ == old(self)@.spaced(roll));
                }
            },
        }
    }

    /// One key press while the pause menu is up, given the saves now on disk. The menu
    /// takes the key; then the match resumes, asks for a save or a load, or asks the
    /// program to end, as the menu then stands.
    pub fn handle_pause_menu(&mut self, key_event: KeyInput, app: &mut App, save_files: &Vec<FileInfo>) -> (requests:
        FileRequests)
        requires
            old(self).pause_menu.wf(),
        ensures
            final(self).pause_menu.wf(),
            PauseMenu::keyed(
                old(self).pause_menu,
                final(self).pause_menu,
                key_event,
                save_files@,
                requests.delete,
            ),
            final(self)@ == (GameView {
                state: if final(self).pause_menu.state == PauseMenuState::Resume {
                    GameState::RUNNING
                } else {
                    old(self).state
                },
                pause_menu: final(self).pause_menu,
                ..old(self)@
            }),
            final(app).current_screen == old(app).current_screen,
            final(app).should_quit == (old(app).should_quit || final(self).pause_menu.state
                == PauseMenuState::Exit),
            requests.save is Some <==> final(self).pause_menu.state == PauseMenuState::Saved,
            requests.save matches Some(name) ==> name@
                == final(self).pause_menu.save_state.save_file_name@,
            requests.load is Some <==> final(self).pause_menu.state == PauseMenuState::Loaded,
            requests.load matches Some(name) ==> name@
                == final(self).pause_menu.load_state.load_file_name@,
    {
        let delete: Option<String> = self.pause_menu.handle_key_event(key_event, save_files);
        let mut save: Option<String> = None;
        let mut load: Option<String> = None;

        match self.pause_menu.state {
            PauseMenuState::Resume => {
                self.state = GameState::RUNNING;
            },
            PauseMenuState::Saved => {
                save = Some(self.pause_menu.save_state.save_file_name.clone());
            },
            PauseMenuState::Loaded => {
                load = Some(self.pause_menu.load_state.load_file_name.clone());
            },
            PauseMenuState::Wait | PauseMenuState::Saving | PauseMenuState::Loading => {},
            PauseMenuState::Exit => {
                app.should_quit = true;
            },
        }
        FileRequests { delete, save, load }
    }

    /// Takes over the match read from a save: everything but the pause menu comes from
    /// `loaded`, the match runs, and the pause menu is opened afresh on the saves now on
    /// disk.
    pub fn finish_load(&mut self, loaded: GameMainScreen, save_files: &Vec<FileInfo>)
        ensures
            final(self).state == GameState::RUNNING,
            final(self).pause_menu.is_opening(save_files@),
            final(self).pause_menu.wf(),
            final(self)@ == (GameView {
                state: GameState::RUNNING,
                pause_menu: final(self).pause_menu,
                ..loaded@
            }),
            loaded@.wf() ==> final(self)@.wf(),
    {
        self.players = loaded.players;
        self.curr_player = loaded.curr_player;
        self.is_game_finished = loaded.is_game_finished;
        self.board = loaded.board;
        self.path_map = loaded.path_map;
        self.message = loaded.message;
        self.should_normalize_movement = loaded.should_normalize_movement;
        self.playing_colors = loaded.playing_colors;
        self.game_winner = loaded.game_winner;
        self.state = GameState::RUNNING;
        self.pause_menu = PauseMenu::new(save_files);
        proof {
            if loaded@.wf() {
                lemma_progress_wf(loaded@, self@);
            }
        }
    }

    /// One key press, given the saves now on disk. While the pause menu is up the key
    /// goes to the menu. A running match is paused by Escape, steered by the arrows,
    /// and played with the digits, Enter, Backspace and the space bar; it asks nothing
    /// of the disk.
    pub fn handle_key_event(&mut self, key_event: KeyInput, app: &mut App, save_files: &Vec<FileInfo>) -> (requests:
        FileRequests)
        requires
            old(self)@.wf(),
            old(self).pause_menu.wf(),
        ensures
            final(self)@.wf(),
            final(self).pause_menu.wf(),
            GameMainScreen::key_handled(
                *old(self),
                *final(self),
                key_event,
                *old(app),
                *final(app),
                save_files@,
                requests,
            ),
    {
        if self.state == GameState::PAUSED {
            let requests = self.handle_pause_menu(key_event, app, save_files);
            proof {
                lemma_progress_wf(old(self)@, self@);
            }
            return requests;
        }
        let nothing = FileRequests { delete: None, save: None, load: None };
        match key_event {
            KeyInput::Esc => {
                self.state = GameState::PAUSED;
                proof {
                    lemma_progress_wf(old(self)@, self@);
                    assert(self@ == old(self)@.keyed(key_event, 1));
                }
            },
            KeyInput::Up | KeyInput::Down | KeyInput::Left | KeyInput::Right => {
                MainEventHandler::handle_relative_change(self, key_event);
                assert(self@ == old(self)@.keyed(key_event, 1));
            },
            KeyInput::Char(c) => {
                if c == '1' || c == '2' || c == '3' || c == '4' {
                    MainEventHandler::handle_pawn_select(self, key_event);
                    assert(self@ == old(self)@.keyed(key_event, 1));
                } else if c == ' ' {
                    self.handle_space();
                    proof {
                        let dice = choose|dice: usize|
                            1 <= dice <= 6 && self@ == #[trigger] old(self)@.spaced(dice);
                        assert(self@ == old(self)@.keyed(key_event, dice));
                    }
                } else {
                    assert(self@ == old(self)@.keyed(key_event, 1));
                }
            },
            KeyInput::Enter => {
                self.handle_enter();
                assert(self@ == old(self)@.keyed(key_event, 1));
            },
            KeyInput::Backspace => {
                if self.curr_player.player_action.rank() > 2 && self.curr_player.player_action.rank()
                    < 4 {
                    MainEventHandler::handle_unselect_pawn(self)
                }
                assert(self@ == old(self)@.keyed(key_event, 1));
            },
            KeyInput::Other => {
                assert(self@ == old(self)@.keyed(key_event, 1));
            },
        }
        nothing
    }
}

} // verus!
