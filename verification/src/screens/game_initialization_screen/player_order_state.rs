use std::collections::BTreeMap;
use vstd::prelude::*;

verus! {

/// How far the rolls for the order of play have got.
#[derive(Debug, Clone, Copy, PartialEq, Eq, Structural)]
pub enum RollState {
    Initial,
    Rethrow,
    RethrowFinished,
}

/// The rolls for the order of play: who rolls next, what each player has rolled, and
/// who has to roll again because of a tie.
pub struct PlayerOrderState {
    pub curr_id: usize,
    /// From the index of a player to what that player has rolled.
    pub rolled_numbers: BTreeMap<usize, usize>,
    pub roll_state: RollState,
    pub reroll_buffer: Vec<usize>,
}

impl PlayerOrderState {
    /// Every roll on record belongs to one of at most four players.
    pub open spec fn wf(self) -> bool {
        forall|k: usize| self.rolled_numbers@.contains_key(k) ==> k < 4
    }

    /// The rolls before any throw: the first player is to roll, nothing is on record and
    /// nobody waits to roll again.
    pub open spec fn is_opening(self) -> bool {
        &&& self.curr_id == 0
        &&& self.rolled_numbers@ == Map::<usize, usize>::empty()
        &&& self.roll_state == RollState::Initial
        &&& self.reroll_buffer@ == Seq::<usize>::empty()
    }

    /// The rolls before any throw.
    pub fn new() -> (state: PlayerOrderState)
        ensures
            state.is_opening(),
            state.curr_id == 0,
            state.rolled_numbers@ == Map::<usize, usize>::empty(),
            state.roll_state == RollState::Initial,
            state.reroll_buffer@ == Seq::<usize>::empty(),
            state.wf(),
    {
        PlayerOrderState {
            curr_id: 0,
            rolled_numbers: BTreeMap::new(),
            roll_state: RollState::Initial,
            reroll_buffer: Vec::new(),
        }
    }
}

} // verus!
