use vstd::prelude::*;

use super::pawn::Pawn;
use super::pawn::PawnColor;

verus! {

/// What a cell of the grid is for.
#[derive(Clone, Copy, Debug, Default, Eq, Hash, PartialEq, PartialOrd, Ord, Structural)]
pub enum FieldKind {
    #[default]
    Gap,
    Path,
    RedHome,
    GreenHome,
    BlueHome,
    YellowHome,
    RedStart,
    GreenStart,
    BlueStart,
    YellowStart,
    RedSafehouse,
    GreenSafehouse,
    BlueSafehouse,
    YellowSafehouse,
}

impl FieldKind {
    /// The resting area of some colour.
    pub open spec fn is_home(self) -> bool {
        self == FieldKind::RedHome || self == FieldKind::GreenHome || self == FieldKind::BlueHome
            || self == FieldKind::YellowHome
    }

    /// The kind of the four resting cells of `color`.
    pub open spec fn home_of(color: PawnColor) -> FieldKind {
        match color {
            PawnColor::RED => FieldKind::RedHome,
            PawnColor::GREEN => FieldKind::GreenHome,
            PawnColor::BLUE => FieldKind::BlueHome,
            PawnColor::YELLOW => FieldKind::YellowHome,
        }
    }

    /// The kind of the cell on which pawns of `color` enter the ring.
    pub open spec fn start_of(color: PawnColor) -> FieldKind {
        match color {
            PawnColor::RED => FieldKind::RedStart,
            PawnColor::GREEN => FieldKind::GreenStart,
            PawnColor::BLUE => FieldKind::BlueStart,
            PawnColor::YELLOW => FieldKind::YellowStart,
        }
    }

    /// The kind of the four final cells reserved for `color`.
    pub open spec fn safehouse_of(color: PawnColor) -> FieldKind {
        match color {
            PawnColor::RED => FieldKind::RedSafehouse,
            PawnColor::GREEN => FieldKind::GreenSafehouse,
            PawnColor::BLUE => FieldKind::BlueSafehouse,
            PawnColor::YELLOW => FieldKind::YellowSafehouse,
        }
    }
}

/// One cell of the grid, with the pawn standing on it, if any.
#[derive(Clone, Copy, Debug)]
pub struct Field {
    pub is_visible: bool,
    pub is_hovered: bool,
    pub kind: FieldKind,
    pub pawn: Option<Pawn>,
    pub position: (usize, usize),
}

impl Field {
    /// A field of the given kind at the grid's origin; `set_position` places it.
    pub fn new(field_type: FieldKind, is_visible: bool, is_hovered: bool, pawn: Option<Pawn>) -> (f:
        Field)
        ensures
            f == (Field { is_visible, is_hovered, kind: field_type, pawn, position: (0usize, 0usize) }),
    {
        Field { is_visible, is_hovered, kind: field_type, pawn, position: (0, 0) }
    }

    /// Records where on the grid this field lies.
    pub fn set_position(&mut self, pos: (usize, usize))
        ensures
            *final(self) == (Field { position: pos, ..*old(self) }),
    {
        self.position = pos;
    }
}

} // verus!
