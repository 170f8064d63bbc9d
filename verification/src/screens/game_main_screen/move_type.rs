use vstd::prelude::*;

verus! {

/// What a legal move does.
#[derive(Debug, Default, Clone, Copy, PartialEq, Eq, PartialOrd, Structural)]
pub enum GoodMoveType {
    #[default]
    Start,
    Move,
    EatMove,
    Safehouse,
}

/// Why a move is refused.
#[derive(Debug, Default, Clone, Copy, PartialEq, Eq, PartialOrd, Structural)]
pub enum BadMoveType {
    #[default]
    DidntRoll6,
    StartOccupied,
    WrongStart,
    Generic,
    UnreachableField,
    CantEatOwnPawn,
    CantSkipSafehousePawn,
}

impl BadMoveType {
    /// The sentence shown to the player.
    pub open spec fn spec_text(self) -> Seq<char> {
        match self {
            BadMoveType::DidntRoll6 => "You selected a home field without getting 6!"@,
            BadMoveType::StartOccupied => "Start field is occupied!"@,
            BadMoveType::WrongStart => "Invalid start! You can only start on your own start position."@,
            BadMoveType::UnreachableField => "Selected field is unreachable with current roll."@,
            BadMoveType::CantEatOwnPawn => "You can't move to your own pawn's field!"@,
            BadMoveType::CantSkipSafehousePawn => "You can't move past your own pawn in the safehouse!"@,
            BadMoveType::Generic => "Generic error :( I coded something wrong..."@,
        }
    }

    /// The sentence shown to the player.
    pub fn to_string(&self) -> (s: String)
        ensures
            s@ == self.spec_text(),
    {
        match self {
            BadMoveType::DidntRoll6 => String::from_str(
                "You selected a home field without getting 6!",
            ),
            BadMoveType::StartOccupied => String::from_str("Start field is occupied!"),
            BadMoveType::WrongStart => String::from_str(
                "Invalid start! You can only start on your own start position.",
            ),
            BadMoveType::UnreachableField => String::from_str(
                "Selected field is unreachable with current roll.",
            ),
            BadMoveType::CantEatOwnPawn => String::from_str(
                "You can't move to your own pawn's field!",
            ),
            BadMoveType::CantSkipSafehousePawn => String::from_str(
                "You can't move past your own pawn in the safehouse!",
            ),
            BadMoveType::Generic => String::from_str("Generic error :( I coded something wrong..."),
        }
    }
}

/// Why a roll leaves the player without a move.
#[derive(Debug, Default, Clone, Copy, PartialEq, Eq, PartialOrd, Structural)]
pub enum NoValidMoveType {
    #[default]
    NoPawnsNot6,
    StarOccupied,
}

impl NoValidMoveType {
    /// The clause shown to the player.
    pub open spec fn spec_text(self) -> Seq<char> {
        match self {
            NoValidMoveType::NoPawnsNot6 => "you have no pawns on field"@,
            NoValidMoveType::StarOccupied => "start field is occupied"@,
        }
    }

    /// The clause shown to the player.
    pub fn to_string(&self) -> (s: String)
        ensures
            s@ == self.spec_text(),
    {
        match self {
            NoValidMoveType::NoPawnsNot6 => String::from_str("you have no pawns on field"),
            NoValidMoveType::StarOccupied => String::from_str("start field is occupied"),
        }
    }
}

} // verus!
