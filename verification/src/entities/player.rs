use vstd::prelude::*;

use super::field::FieldKind;
use super::pawn::Pawn;
use super::pawn::PawnColor;

verus! {

/// The `k`-th resting cell of `color`: a two by two block in the colour's corner.
pub open spec fn home_cell(color: PawnColor, k: int) -> (usize, usize) {
    let (top, left): (int, int) = match color {
        PawnColor::RED => (0, 0),
        PawnColor::GREEN => (0, 11),
        PawnColor::BLUE => (11, 11),
        PawnColor::YELLOW => (11, 0),
    };
    ((top + k / 2) as usize, (left + k % 2) as usize)
}

/// The cell on which pawns of `color` enter the ring.
pub open spec fn start_cell(color: PawnColor) -> (usize, usize) {
    match color {
        PawnColor::RED => (4, 0),
        PawnColor::GREEN => (0, 8),
        PawnColor::BLUE => (8, 12),
        PawnColor::YELLOW => (12, 4),
    }
}

/// The `k`-th final cell of `color`: the arm that runs from the rim towards the centre,
/// so that a larger `k` lies deeper inside.
pub open spec fn safehouse_cell(color: PawnColor, k: int) -> (usize, usize) {
    match color {
        PawnColor::RED => (6, (1 + k) as usize),
        PawnColor::GREEN => ((1 + k) as usize, 6),
        PawnColor::BLUE => (6, (11 - k) as usize),
        PawnColor::YELLOW => ((11 - k) as usize, 6),
    }
}

/// One participant: four pawns and the cells that belong to the colour played.
#[derive(Debug, Copy, Clone)]
pub struct Player {
    /// Index of the player among the players of the game.
    pub id: usize,
    pub order: usize,
    pub pawns: [Pawn; 4],
    pub pawn_color: PawnColor,
    pub home_pos: [(usize, usize); 4],
    pub safehouse_pos: [(usize, usize); 4],
    pub safehouse_kind: FieldKind,
    pub home_field_kind: FieldKind,
    pub start_field_kind: FieldKind,
    pub start_pos: (usize, usize),
    /// How many of the four pawns have left their resting cells.
    pub pawns_on_board: usize,
}

impl Player {
    /// The cells and kinds of this player are those of the colour it plays.
    pub open spec fn has_layout_of_color(self) -> bool {
        &&& self.home_field_kind == FieldKind::home_of(self.pawn_color)
        &&& self.start_field_kind == FieldKind::start_of(self.pawn_color)
        &&& self.safehouse_kind == FieldKind::safehouse_of(self.pawn_color)
        &&& self.start_pos == start_cell(self.pawn_color)
        &&& forall|k: int|
            0 <= k < 4 ==> #[trigger] self.home_pos[k] == home_cell(self.pawn_color, k)
        &&& forall|k: int|
            0 <= k < 4 ==> #[trigger] self.safehouse_pos[k] == safehouse_cell(self.pawn_color, k)
    }

    /// The `k`-th pawn carries its own index, its owner's index and its owner's colour.
    pub open spec fn owns_pawn(self, k: int) -> bool {
        &&& self.pawns[k].id == k
        &&& self.pawns[k].player_id == self.id
        &&& self.pawns[k].color == self.pawn_color
    }

    /// The `k`-th pawn rests on its own resting cell.
    pub open spec fn pawn_at_home(self, k: int) -> bool {
        self.pawns[k].position == self.home_pos[k]
    }

    /// A player as `new` makes it: the layout of `color`, all four pawns at rest.
    pub open spec fn is_fresh(self, id: usize, order: usize, color: PawnColor) -> bool {
        &&& self.id == id
        &&& self.order == order
        &&& self.pawn_color == color
        &&& self.pawns_on_board == 0
        &&& self.has_layout_of_color()
        &&& forall|k: int|
            0 <= k < 4 ==> #[trigger] self.pawns[k] == Pawn::spec_new(
                k as usize,
                color,
                id,
                home_cell(color, k),
            )
    }

    /// A player of `color` with its four pawns on their resting cells.
    pub fn new(id: usize, order: usize, color: PawnColor) -> (player: Player)
        ensures
            player.is_fresh(id, order, color),
    {
        let start_pos: (usize, usize);
        let start_field_kind: FieldKind;
        let safehouse_kind: FieldKind;
        let home_field_kind: FieldKind;
        let home_pos: [(usize, usize); 4];
        let safehouse_pos: [(usize, usize); 4];

        match color {
            PawnColor::RED => {
                start_pos = (4, 0);
                home_field_kind = FieldKind::RedHome;
                start_field_kind = FieldKind::RedStart;
                safehouse_kind = FieldKind::RedSafehouse;
                home_pos = [(0, 0), (0, 1), (1, 0), (1, 1)];
                safehouse_pos = [(6, 1), (6, 2), (6, 3), (6, 4)];
            },
            PawnColor::GREEN => {
                start_pos = (0, 8);
                home_field_kind = FieldKind::GreenHome;
                start_field_kind = FieldKind::GreenStart;
                safehouse_kind = FieldKind::GreenSafehouse;
                home_pos = [(0, 11), (0, 12), (1, 11), (1, 12)];
                safehouse_pos = [(1, 6), (2, 6), (3, 6), (4, 6)];
            },
            PawnColor::BLUE => {
                start_pos = (8, 12);
                home_field_kind = FieldKind::BlueHome;
                start_field_kind = FieldKind::BlueStart;
                safehouse_kind = FieldKind::BlueSafehouse;
                home_pos = [(11, 11), (11, 12), (12, 11), (12, 12)];
                safehouse_pos = [(6, 11), (6, 10), (6, 9), (6, 8)];
            },
            PawnColor::YELLOW => {
                start_pos = (12, 4);
                home_field_kind = FieldKind::YellowHome;
                start_field_kind = FieldKind::YellowStart;
                safehouse_kind = FieldKind::YellowSafehouse;
                home_pos = [(11, 0), (11, 1), (12, 0), (12, 1)];
                safehouse_pos = [(11, 6), (10, 6), (9, 6), (8, 6)];
            },
        }

        let pawns: [Pawn; 4] = [
            Pawn::new(0, color, id, home_pos[0]),
            Pawn::new(1, color, id, home_pos[1]),
            Pawn::new(2, color, id, home_pos[2]),
            Pawn::new(3, color, id, home_pos[3]),
        ];

        Player {
            id,
            pawn_color: color,
            order,
            pawns,
            pawns_on_board: 0,
            home_pos,
            home_field_kind,
            start_field_kind,
            safehouse_kind,
            start_pos,
            safehouse_pos,
        }
    }

    /// Records the player's place in the order of play.
    pub fn set_order(&mut self, order: usize)
        ensures
            *final(self) == (Player { order, ..*old(self) }),
    {
        self.order = order
    }

    /// The pawn with index `pawn_id`.
    pub fn get_pawn(&self, pawn_id: usize) -> (pawn: &Pawn)
        requires
            pawn_id < 4,
        ensures
            *pawn == self.pawns[pawn_id as int],
    {
        &self.pawns[pawn_id]
    }
}

} // verus!
