use vstd::prelude::*;

use crate::entities::pawn::PawnColor;

verus! {

/// A round marker of a colour, so many cells wide and high.
#[derive(Debug, Clone, PartialEq)]
pub struct Circle {
    pub color: PawnColor,
    pub width: usize,
    pub height: usize,
}

impl Circle {
    pub fn new(color: PawnColor, width: usize, height: usize) -> (circle: Circle)
        ensures
            circle == (Circle { color, width, height }),
    {
        Circle { color, width, height }
    }
}

} // verus!
