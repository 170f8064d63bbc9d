use vstd::prelude::*;

use crate::entities::pawn::Pawn;
use crate::entities::player::Player;

verus! {

/// A match as a bare ring: the players and, for each of the forty cells of the ring, the
/// pawn on it.
pub struct Game {
    pub players: Vec<Player>,
    pub fields: Vec<Option<Pawn>>,
}

impl Game {
    /// No players, and an empty ring.
    pub fn new() -> (game: Game)
        ensures
            game.players@ == Seq::<Player>::empty(),
            game.fields.len() == 40,
            forall|i: int| 0 <= i < 40 ==> (#[trigger] game.fields[i]) is None,
    {
        let mut fields: Vec<Option<Pawn>> = Vec::new();
        let mut i: usize = 0;
        while i < 40
            invariant
                i <= 40,
                fields.len() == i,
                forall|j: int| 0 <= j < i ==> (#[trigger] fields[j]) is None,
            decreases 40 - i,
        {
            fields.push(None);
            i += 1;
        }
        Game { players: Vec::new(), fields }
    }
}

} // verus!
