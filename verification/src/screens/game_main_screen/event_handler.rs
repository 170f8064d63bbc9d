use vstd::prelude::*;

use super::current_player::CurrentPlayer;
use super::move_type::NoValidMoveType;
use super::screen::lemma_pieces_carry;
use super::screen::GameMainScreen;
use super::screen::GameView;
use super::screen::HoverDir;
use super::screen::PlayerAction;
use crate::entities::player::Player;
use crate::event::KeyInput;
use crate::text::decimal;
use crate::text::number_text;
use crate::utils::roll_dice;

verus! {

/// The digit that a key writes, and zero for every other key.
pub open spec fn digit_of(key: KeyInput) -> usize {
    match key {
        KeyInput::Char(c) => if c == '1' {
            1
        } else if c == '2' {
            2
        } else if c == '3' {
            3
        } else if c == '4' {
            4
        } else if c == '5' {
            5
        } else if c == '6' {
            6
        } else if c == '7' {
            7
        } else if c == '8' {
            8
        } else if c == '9' {
            9
        } else {
            0
        },
        _ => 0,
    }
}

/// The direction that an arrow key stands for.
pub open spec fn direction_of(key: KeyInput) -> Option<HoverDir> {
    match key {
        KeyInput::Up => Some(HoverDir::Up),
        KeyInput::Down => Some(HoverDir::Down),
        KeyInput::Left => Some(HoverDir::Left),
        KeyInput::Right => Some(HoverDir::Right),
        _ => None,
    }
}

/// The line shown after a roll that leaves a pawn to move.
pub open spec fn rolled_text(roll: usize) -> Seq<char> {
    "You rolled a "@ + decimal(roll as nat) + "!  \n\n Press numbers 1-4 to select your pawn."@
}

/// The line shown after a roll that leaves no pawn to move.
pub open spec fn stuck_text(roll: usize) -> Seq<char> {
    "You rolled a "@ + decimal(roll as nat) + " but "@ + NoValidMoveType::NoPawnsNot6.spec_text()
        + " \n\n Press ENTER to continue."@
}

/// The line shown after pawn number `number` has been picked.
pub open spec fn selected_text(number: usize) -> Seq<char> {
    "Selected pawn "@ + decimal(number as nat)
        + "! \n\n Move to desired location and press ENTER."@
}

/// The line shown after pawn number `number` has been put back.
pub open spec fn unselected_text(number: usize) -> Seq<char> {
    "Unselected pawn "@ + decimal(number as nat)
        + "! \n\n Press numbers 1-4 to select new pawn."@
}

impl GameView {
    /// The state after the dice have shown `roll`. Nothing changes where the player has
    /// rolled already in this turn. Otherwise the roll is kept, and the turn goes on to
    /// the choice of a pawn, or straight to its end where no pawn can move.
    pub open spec fn rolled(self, roll: usize) -> GameView {
        if self.curr_player.roll is Some {
            self
        } else {
            let thrown = GameView {
                curr_player: CurrentPlayer { roll: Some(roll), ..self.curr_player },
                ..self
            };
            if thrown.stuck() {
                GameView {
                    curr_player: CurrentPlayer {
                        player_action: PlayerAction::Playing,
                        ..thrown.curr_player
                    },
                    message: stuck_text(roll),
                    ..thrown
                }
            } else {
                GameView {
                    curr_player: CurrentPlayer {
                        player_action: PlayerAction::Selecting,
                        ..thrown.curr_player
                    },
                    message: rolled_text(roll),
                    ..thrown
                }
            }
        }
    }

    /// Where the hover goes when pawn `k` of the current player is picked: to the pawn, or
    /// to the player's entry cell while the pawn rests.
    pub open spec fn focus_for(self, k: int) -> (usize, usize) {
        let me = self.current();
        let pawn = me.pawns[k];
        if self.cell(pawn.position).kind == me.home_field_kind {
            me.start_pos
        } else {
            pawn.position
        }
    }

    /// The state after a digit key, pressed to pick a pawn. Outside the choice of a pawn
    /// the key does nothing. A digit from one to four picks that pawn and puts the hover
    /// on it; any other key leaves a complaint.
    pub open spec fn pawn_picked(self, key: KeyInput) -> GameView {
        let digit = digit_of(key);
        if self.curr_player.player_action != PlayerAction::Selecting {
            self
        } else if digit == 0 {
            GameView { message: "no pawn_id passed"@, ..self }
        } else if digit > 4 {
            GameView { message: "No pawn found"@, ..self }
        } else {
            (GameView {
                curr_player: CurrentPlayer {
                    selected_pawn_id: Some((digit - 1) as usize),
                    player_action: PlayerAction::Hovering,
                    ..self.curr_player
                },
                message: selected_text(digit),
                ..self
            }).focused(self.focus_for(digit - 1))
        }
    }

    /// The state after an arrow key: the hover moves while a target is sought.
    pub open spec fn steered(self, key: KeyInput) -> GameView {
        match direction_of(key) {
            Some(dir) => if self.curr_player.player_action == PlayerAction::Hovering {
                self.hovered(dir)
            } else {
                self
            },
            None => self,
        }
    }

    /// The state after the picked pawn has been put back.
    pub open spec fn unselected(self) -> GameView {
        match self.curr_player.selected_pawn_id {
            Some(id) => GameView {
                curr_player: CurrentPlayer {
                    player_action: PlayerAction::Selecting,
                    selected_pawn_id: None,
                    ..self.curr_player
                },
                message: unselected_text((id + 1) as usize),
                ..self
            },
            None => self,
        }
    }
}

/// A change of the cursor's progress and of the message keeps a reachable state
/// reachable, as long as a pawn stays picked while its target is sought and the turn
/// waits with no pawn picked until the dice are rolled.
pub proof fn lemma_progress_wf(s: GameView, t: GameView)
    requires
        s.wf(),
        t.players == s.players,
        t.board == s.board,
        t.path_map == s.path_map,
        t.curr_player.id == s.curr_player.id,
        t.curr_player.curr_hover_flat == s.curr_player.curr_hover_flat,
        t.curr_player.curr_hover_position == s.curr_player.curr_hover_position,
        t.curr_player.selected_pawn_id matches Some(k) ==> k < 4,
        t.curr_player.player_action == PlayerAction::Hovering
            ==> t.curr_player.selected_pawn_id is Some,
        t.curr_player.roll is None ==> t.curr_player.selected_pawn_id is None
            && t.curr_player.player_action == PlayerAction::WaitingRoll,
    ensures
        t.wf(),
{
    lemma_pieces_carry(s, t);
    assert(t.frame() == s.frame());
}

/// The keys of a running match.
pub struct MainEventHandler;

impl MainEventHandler {
    /// An arrow key: moves the hover while a target is sought.
    pub fn handle_relative_change(gms: &mut GameMainScreen, key_event: KeyInput)
        requires
            old(gms)@.wf(),
        ensures
            final(gms)@ == old(gms)@.steered(key_event),
            final(gms)@.wf(),
    {
        if gms.curr_player.player_action == PlayerAction::Hovering {
            match key_event {
                KeyInput::Up => gms.hover_relative(HoverDir::Up),
                KeyInput::Down => gms.hover_relative(HoverDir::Down),
                KeyInput::Left => gms.hover_relative(HoverDir::Left),
                KeyInput::Right => gms.hover_relative(HoverDir::Right),
                _ => {},
            }
        }
    }

    /// A digit key: picks the pawn of that number during the choice of a pawn.
    pub fn handle_pawn_select(gms: &mut GameMainScreen, key_event: KeyInput)
        requires
            old(gms)@.wf(),
        ensures
            final(gms)@ == old(gms)@.pawn_picked(key_event),
            final(gms)@.wf(),
    {
        let raw_code: usize = match key_event {
            KeyInput::Char(ch) => {
                if ch == '1' {
                    1
                } else if ch == '2' {
                    2
                } else if ch == '3' {
                    3
                } else if ch == '4' {
                    4
                } else if ch == '5' {
                    5
                } else if ch == '6' {
                    6
                } else if ch == '7' {
                    7
                } else if ch == '8' {
                    8
                } else if ch == '9' {
                    9
                } else {
                    0
                }
            },
            _ => 0,
        };

        if gms.curr_player.player_action == PlayerAction::Selecting {
            let requested: Option<usize> = if raw_code == 0 {
                None
            } else {
                Some(raw_code - 1)
            };
            let ghost s = gms@;
            match gms.select_pawn(requested) {
                Ok(_) => {
                    let mut message = String::from_str("Selected pawn ");
                    let number = number_text(raw_code);
                    message.append(number.as_str());
                    message.append("! \n\n Move to desired location and press ENTER.");
                    gms.message = message;

                    let current_player: Player = gms.players[gms.curr_player.id];
                    let selected_pawn = current_player.pawns[raw_code - 1];
                    let mut focus_pos: (usize, usize) = selected_pawn.position;
                    proof {
                        let _ = s.pawn(s.curr_player.id as int, raw_code - 1);
                        assert(current_player.has_layout_of_color());
                        crate::screens::game_main_screen::lockstep::lemma_home_cells(
                            current_player.pawn_color,
                            0,
                            current_player.pawn_color,
                            0,
                        );
                    }
                    if gms.board[selected_pawn.position.0][selected_pawn.position.1].kind
                        == current_player.home_field_kind {
                        focus_pos = current_player.start_pos;
                    }
                    proof {
                        lemma_progress_wf(s, gms@);
                    }
                    gms.focus_field(focus_pos);
                },
                Err(message) => {
                    gms.message = String::from_str(message);
                    proof {
                        lemma_progress_wf(s, gms@);
                    }
                },
            }
        }
    }

    /// Takes `roll` as what the dice have shown.
    pub fn apply_roll(gms: &mut GameMainScreen, roll: usize)
        requires
            old(gms)@.wf(),
        ensures
            final(gms)@ == old(gms)@.rolled(roll),
            final(gms)@.wf(),
    {
        if gms.curr_player.roll.is_none() {
            let ghost s = gms@;
            gms.curr_player.roll = Some(roll);

            match gms.has_valid_moves() {
                Ok(_) => {
                    gms.curr_player.player_action = PlayerAction::Selecting;
                    let mut message = String::from_str("You rolled a ");
                    let number = number_text(roll);
                    message.append(number.as_str());
                    message.append("!  \n\n Press numbers 1-4 to select your pawn.");
                    gms.message = message;
                },
                Err(reason) => {
                    gms.curr_player.player_action = PlayerAction::Playing;
                    let mut message = String::from_str("You rolled a ");
                    let number = number_text(roll);
                    message.append(number.as_str());
                    message.append(" but ");
                    let why = reason.to_string();
                    message.append(why.as_str());
                    message.append(" \n\n Press ENTER to continue.");
                    gms.message = message;
                },
            }
            proof {
                lemma_progress_wf(s, gms@);
            }
        }
    }

    /// Rolls for the current player: with `dice_roll` where one is given, with a throw of
    /// the dice otherwise. A player who has rolled already in this turn keeps that roll.
    pub fn handle_roll(gms: &mut GameMainScreen, dice_roll: Option<usize>)
        requires
            old(gms)@.wf(),
        ensures
            final(gms)@.wf(),
            match dice_roll {
                Some(roll) => final(gms)@ == old(gms)@.rolled(roll),
                None => exists|roll: usize|
                    1 <= roll <= 6 && final(gms)@ == #[trigger] old(gms)@.rolled(roll),
            },
            old(gms)@.curr_player.roll is Some ==> final(gms)@ == old(gms)@,
    {
        if gms.curr_player.roll.is_none() {
            let roll: usize = match dice_roll {
                Some(given) => given,
                None => roll_dice(),
            };
            Self::apply_roll(gms, roll);
        } else {
            assert(gms@ == old(gms)@.rolled(1));
        }
    }

    /// Puts the picked pawn back, so that another can be picked.
    pub fn handle_unselect_pawn(gms: &mut GameMainScreen)
        requires
            old(gms)@.wf(),
        ensures
            final(gms)@ == old(gms)@.unselected(),
            final(gms)@.wf(),
    {
        if let Some(selected_pawn_id) = gms.curr_player.selected_pawn_id {
            let ghost s = gms@;
            gms.curr_player.player_action = PlayerAction::Selecting;
            let mut message = String::from_str("Unselected pawn ");
            let number = number_text(selected_pawn_id + 1);
            message.append(number.as_str());
            message.append("! \n\n Press numbers 1-4 to select new pawn.");
            gms.message = message;
            gms.curr_player.selected_pawn_id = None;
            proof {
                lemma_progress_wf(s, gms@);
            }
        }
    }
}

} // verus!
