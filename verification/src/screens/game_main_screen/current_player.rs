use vstd::prelude::*;

use super::screen::PlayerAction;
use crate::entities::player::Player;

verus! {

/// The turn cursor: who plays, how far the turn has got, and where the hover rests.
#[derive(Debug, Clone, Copy)]
pub struct CurrentPlayer {
    /// Index of the player whose turn it is.
    pub id: usize,
    pub player_action: PlayerAction,
    pub selected_pawn_id: Option<usize>,
    pub prev_hover_flat: usize,
    pub prev_hover_position: (usize, usize),
    pub curr_hover_flat: usize,
    pub curr_hover_position: (usize, usize),
    pub roll: Option<usize>,
}

impl CurrentPlayer {
    /// The cursor at the start of a match.
    pub open spec fn spec_new() -> CurrentPlayer {
        CurrentPlayer {
            id: 0,
            player_action: PlayerAction::WaitingRoll,
            selected_pawn_id: None,
            prev_hover_flat: 0,
            prev_hover_position: (0, 0),
            curr_hover_flat: 0,
            curr_hover_position: (0, 0),
            roll: None,
        }
    }

    /// The cursor with the turn's progress wiped: no roll, no selection, waiting for a roll.
    pub open spec fn restarted(self) -> CurrentPlayer {
        CurrentPlayer {
            player_action: PlayerAction::WaitingRoll,
            selected_pawn_id: None,
            roll: None,
            ..self
        }
    }

    /// Distance between the roll and `num`, reduced to the slots of a path map.
    pub open spec fn spec_diff_from_roll(self, num: usize) -> int {
        match self.roll {
            Some(roll) => (if roll >= num {
                roll - num
            } else {
                num - roll
            }) % 44,
            None => 0,
        }
    }

    pub fn new() -> (c: CurrentPlayer)
        ensures
            c == CurrentPlayer::spec_new(),
    {
        CurrentPlayer {
            id: 0,
            player_action: PlayerAction::WaitingRoll,
            selected_pawn_id: None,
            prev_hover_flat: 0,
            prev_hover_position: (0, 0),
            curr_hover_flat: 0,
            curr_hover_position: (0, 0),
            roll: None,
        }
    }

    /// The hover may move only once the dice have been rolled.
    pub fn can_hover(&self) -> (b: bool)
        ensures
            b == (self.roll is Some),
    {
        self.roll.is_some()
    }

    /// The cursor for the turn of `player`: progress wiped, hover kept.
    pub fn next(curr_player: &CurrentPlayer, player: Player) -> (c: CurrentPlayer)
        ensures
            c == curr_player.restarted(),
    {
        CurrentPlayer {
            id: curr_player.id,
            player_action: PlayerAction::WaitingRoll,
            selected_pawn_id: None,
            prev_hover_flat: curr_player.prev_hover_flat,
            prev_hover_position: curr_player.prev_hover_position,
            curr_hover_flat: curr_player.curr_hover_flat,
            curr_hover_position: curr_player.curr_hover_position,
            roll: None,
        }
    }

    /// Gives the same player another turn.
    pub fn repeat_turn(&mut self)
        ensures
            *final(self) == old(self).restarted(),
    {
        self.player_action = PlayerAction::WaitingRoll;
        self.selected_pawn_id = None;
        self.roll = None;
    }

    pub fn diff_from_roll(&self, num: usize) -> (d: usize)
        ensures
            d == self.spec_diff_from_roll(num),
    {
        match self.roll {
            Some(roll) => {
                if roll >= num {
                    (roll - num) % 44
                } else {
                    (num - roll) % 44
                }
            },
            None => 0,
        }
    }
}

} // verus!
