use std::collections::BTreeMap;
use vstd::array::spec_array_update;
use vstd::prelude::*;

use super::current_player::CurrentPlayer;
use super::lockstep::lemma_capture_wf;
use super::lockstep::lemma_move_wf;
use super::move_type::BadMoveType;
use super::move_type::GoodMoveType;
use super::move_type::NoValidMoveType;
use crate::entities::board::is_ring_kind;
use crate::entities::board::lemma_ring_cell;
use crate::entities::board::layout_kind;
use crate::entities::board::ring_pos;
use crate::entities::field::Field;
use crate::entities::field::FieldKind;
use crate::entities::pawn::Pawn;
use crate::entities::pawn::PawnColor;
use crate::entities::player::Player;
use crate::screens::pause_menu::screen::PauseMenu;

verus! {

/// Whether the match runs or the pause menu is open.
#[derive(Debug, Copy, PartialEq, Eq, Clone, Structural)]
pub enum GameState {
    RUNNING,
    PAUSED,
}

/// How far the current turn has got.
#[derive(Debug, Default, Clone, Copy, PartialEq, Eq, PartialOrd, Structural)]
pub enum PlayerAction {
    #[default]
    WaitingRoll,
    Rolled,
    Selecting,
    Hovering,
    Playing,
}

impl PlayerAction {
    /// Place of the phase in the order in which a turn passes through them.
    pub open spec fn spec_rank(self) -> int {
        match self {
            PlayerAction::WaitingRoll => 0,
            PlayerAction::Rolled => 1,
            PlayerAction::Selecting => 2,
            PlayerAction::Hovering => 3,
            PlayerAction::Playing => 4,
        }
    }

    /// Place of the phase in the order in which a turn passes through them.
    pub fn rank(&self) -> (r: u8)
        ensures
            r == self.spec_rank(),
    {
        match self {
            PlayerAction::WaitingRoll => 0,
            PlayerAction::Rolled => 1,
            PlayerAction::Selecting => 2,
            PlayerAction::Hovering => 3,
            PlayerAction::Playing => 4,
        }
    }

    /// The phase's name.
    pub fn to_string(&self) -> (s: String)
        ensures
            s@ == (match *self {
                PlayerAction::WaitingRoll => "WaitingRoll"@,
                PlayerAction::Rolled => "Rolled"@,
                PlayerAction::Selecting => "Selecting"@,
                PlayerAction::Hovering => "Hovering"@,
                PlayerAction::Playing => "Playing"@,
            }),
    {
        match self {
            PlayerAction::WaitingRoll => String::from_str("WaitingRoll"),
            PlayerAction::Rolled => String::from_str("Rolled"),
            PlayerAction::Selecting => String::from_str("Selecting"),
            PlayerAction::Hovering => String::from_str("Hovering"),
            PlayerAction::Playing => String::from_str("Playing"),
        }
    }
}

/// An arrow key, as a direction on the screen.
#[derive(Debug, Default, Clone, Copy, PartialEq, Eq, Structural)]
pub enum HoverDir {
    Up,
    Down,
    Left,
    #[default]
    Right,
}

/// A step of the hover along the path.
#[derive(Debug, Default, Clone, Copy, PartialEq, Eq, Structural)]
pub enum RelativeMove {
    #[default]
    Forward,
    Back,
}

/// Forward distance from slot `num2` to slot `num1`: their difference where `num1` is not
/// behind, else the difference taken round the forty cells of the ring; either way reduced
/// to the forty-four slots of a path map.
pub open spec fn spec_field_diff(num1: int, num2: int) -> int {
    if num1 >= num2 {
        (num1 - num2) % 44
    } else {
        (num1 - num2 + 40) % 44
    }
}

/// Forward distance from slot `num2` to slot `num1`.
pub fn field_diff(num1: usize, num2: usize) -> (diff: usize)
    ensures
        diff == spec_field_diff(num1 as int, num2 as int),
{
    if num1 >= num2 {
        (num1 - num2) % 44
    } else {
        let behind: usize = num2 - num1;
        if behind <= 40 {
            (40 - behind) % 44
        } else {
            let over: usize = (behind - 40) % 44;
            if over == 0 {
                0
            } else {
                44 - over
            }
        }
    }
}


/// The whole state of a match.
pub struct GameMainScreen {
    pub players: Vec<Player>,
    pub state: GameState,
    pub curr_player: CurrentPlayer,
    pub is_game_finished: bool,
    pub board: [[Field; 13]; 13],
    /// From slot to cell: the ring in the current player's frame, then that player's four
    /// final cells.
    pub path_map: BTreeMap<usize, (usize, usize)>,
    pub message: String,
    pub should_normalize_movement: bool,
    pub playing_colors: Vec<PawnColor>,
    pub game_winner: Option<Player>,
    pub pause_menu: PauseMenu,
}

/// The state of a match as a mathematical value.
pub struct GameView {
    pub players: Seq<Player>,
    pub state: GameState,
    pub curr_player: CurrentPlayer,
    pub is_game_finished: bool,
    pub board: [[Field; 13]; 13],
    pub path_map: Map<usize, (usize, usize)>,
    pub message: Seq<char>,
    pub should_normalize_movement: bool,
    pub playing_colors: Seq<PawnColor>,
    pub game_winner: Option<Player>,
    pub pause_menu: PauseMenu,
}

impl View for GameMainScreen {
    type V = GameView;

    open spec fn view(&self) -> GameView {
        GameView {
            players: self.players@,
            state: self.state,
            curr_player: self.curr_player,
            is_game_finished: self.is_game_finished,
            board: self.board,
            path_map: self.path_map@,
            message: self.message@,
            should_normalize_movement: self.should_normalize_movement,
            playing_colors: self.playing_colors@,
            game_winner: self.game_winner,
            pause_menu: self.pause_menu,
        }
    }
}

/// `pos` names a cell of the grid.
pub open spec fn in_grid(pos: (usize, usize)) -> bool {
    pos.0 < 13 && pos.1 < 13
}

/// `board` with `f` written to the cell at `f.position`.
pub open spec fn board_put(board: [[Field; 13]; 13], f: Field) -> [[Field; 13]; 13] {
    spec_array_update(
        board,
        f.position.0 as int,
        spec_array_update(board[f.position.0 as int], f.position.1 as int, f),
    )
}

/// `player` with `pawn` stored under the pawn's own index.
pub open spec fn with_pawn(player: Player, pawn: Pawn) -> Player {
    Player { pawns: spec_array_update(player.pawns, pawn.id as int, pawn), ..player }
}

/// `f` once its pawn has been taken away.
pub open spec fn vacated(f: Field) -> Field {
    Field { pawn: None, is_hovered: false, ..f }
}

/// `k` is the least slot of `path_map` that leads to `pos`.
pub open spec fn is_least_slot(path_map: Map<usize, (usize, usize)>, pos: (usize, usize), k: usize) -> bool {
    &&& path_map.contains_key(k)
    &&& path_map[k] == pos
    &&& forall|q: usize| q < k && path_map.contains_key(q) ==> path_map[q] != pos
}

/// The least slot of `path_map` that leads to `pos`, if any does.
pub open spec fn slot_of(path_map: Map<usize, (usize, usize)>, pos: (usize, usize)) -> Option<usize> {
    if exists|k: usize| is_least_slot(path_map, pos, k) {
        Some(choose|k: usize| is_least_slot(path_map, pos, k))
    } else {
        None
    }
}

/// The step that an arrow key stands for where movement is not normalized.
pub open spec fn plain_step(dir: HoverDir) -> RelativeMove {
    match dir {
        HoverDir::Right | HoverDir::Up => RelativeMove::Forward,
        HoverDir::Left | HoverDir::Down => RelativeMove::Back,
    }
}

/// On these cells the ring runs downwards on the screen.
pub open spec fn runs_down(ci: int, cj: int) -> bool {
    (ci <= 4 && cj == 8) || (ci >= 4 && cj == 12) || (ci >= 8 && cj == 8)
}

/// On these cells the ring runs leftwards on the screen.
pub open spec fn runs_left(ci: int, cj: int) -> bool {
    (ci == 8 && cj >= 6) || (ci == 12 && cj <= 8) || (ci == 8 && cj <= 4)
}

/// The step that an arrow key stands for at the cell in row `ci`, column `cj`.
pub open spec fn spec_normalize_dir(normalize: bool, ci: int, cj: int, dir: HoverDir) -> RelativeMove {
    if normalize && runs_down(ci, cj) && dir == HoverDir::Up {
        RelativeMove::Back
    } else if normalize && runs_down(ci, cj) && dir == HoverDir::Down {
        RelativeMove::Forward
    } else if normalize && runs_left(ci, cj) && dir == HoverDir::Left {
        RelativeMove::Forward
    } else if normalize && runs_left(ci, cj) && dir == HoverDir::Right {
        RelativeMove::Back
    } else {
        plain_step(dir)
    }
}

impl GameView {
    /// The field at `pos`.
    pub open spec fn cell(self, pos: (usize, usize)) -> Field {
        self.board[pos.0 as int][pos.1 as int]
    }

    /// The pawn that stands on the cell at `pos`, if any.
    pub open spec fn occupant(self, pos: (usize, usize)) -> Option<Pawn> {
        self.cell(pos).pawn
    }

    /// Pawn `k` of player `p`, as the player's own array holds it.
    pub open spec fn pawn(self, p: int, k: int) -> Pawn {
        self.players[p].pawns[k]
    }

    /// The player whose turn it is.
    pub open spec fn current(self) -> Player {
        self.players[self.curr_player.id as int]
    }

    /// The state after `f` has been written to the board and, where it carries a pawn,
    /// that pawn to its owner's array.
    pub open spec fn written(self, f: Field) -> GameView {
        GameView {
            players: match f.pawn {
                Some(pw) => self.players.update(
                    pw.player_id as int,
                    with_pawn(self.players[pw.player_id as int], pw),
                ),
                None => self.players,
            },
            board: board_put(self.board, f),
            ..self
        }
    }

    /// The state after the pawn on `f` has been sent back to its resting cell.
    pub open spec fn captured(self, f: Field) -> GameView {
        match f.pawn {
            Some(lp) => {
                let owner = self.players[lp.player_id as int];
                let home = owner.home_pos[lp.id as int];
                let sent = Pawn { position: home, ..lp };
                let counted = GameView {
                    players: self.players.update(
                        lp.player_id as int,
                        Player { pawns_on_board: (owner.pawns_on_board - 1) as usize, ..owner },
                    ),
                    ..self
                };
                counted.written(Field { pawn: Some(sent), ..self.cell(home) }).written(vacated(f))
            },
            None => self,
        }
    }

    /// The pawn on `f` captures what stands on `target`.
    pub open spec fn captures(self, f: Field, target: (usize, usize)) -> bool {
        &&& f.pawn matches Some(sp)
        &&& self.cell(target).pawn matches Some(hp)
        &&& hp.color != sp.color
    }

    /// The pawn on `f` leaves its resting cell.
    pub open spec fn leaves_home(self, f: Field) -> bool {
        &&& f.pawn matches Some(sp)
        &&& f.kind == self.players[sp.player_id as int].home_field_kind
    }

    /// The state after the pawn on `f` has been set down on `target`, a cell taken to be
    /// free: the cell left and the cell reached are written, and a pawn that leaves its
    /// resting cell is counted as out.
    pub open spec fn relocated(self, f: Field, target: (usize, usize)) -> GameView {
        match f.pawn {
            Some(sp) => {
                let arrival = Field {
                    pawn: Some(Pawn { position: target, ..sp }),
                    is_hovered: false,
                    ..self.cell(target)
                };
                let placed = self.written(Field { pawn: None, ..f }).written(arrival);
                if self.leaves_home(f) {
                    let owner = placed.players[sp.player_id as int];
                    GameView {
                        players: placed.players.update(
                            sp.player_id as int,
                            Player { pawns_on_board: (owner.pawns_on_board + 1) as usize, ..owner },
                        ),
                        ..placed
                    }
                } else {
                    placed
                }
            },
            None => self,
        }
    }

    /// The state after the pawn on `f` has been moved to `target`: a pawn of another
    /// colour that stands there is captured first.
    pub open spec fn moved(self, f: Field, target: (usize, usize)) -> GameView {
        if self.captures(f, target) {
            self.captured(self.cell(target)).relocated(f, target)
        } else {
            self.relocated(f, target)
        }
    }

    /// The cell at `target` can take the pawn on `f`: it holds no pawn of that pawn's
    /// colour, and no pawn at all where it is a resting cell.
    pub open spec fn can_take(self, f: Field, target: (usize, usize)) -> bool {
        match self.cell(target).pawn {
            Some(hp) => hp.color != f.pawn->0.color && !layout_kind(
                target.0 as int,
                target.1 as int,
            ).is_home(),
            None => true,
        }
    }

    /// What moving the pawn on `f` to `target` reports.
    pub open spec fn move_outcome(self, f: Field, target: (usize, usize)) -> Result<
        GoodMoveType,
        BadMoveType,
    > {
        if f.pawn is None {
            Err(BadMoveType::Generic)
        } else if self.captures(f, target) {
            Ok(GoodMoveType::EatMove)
        } else {
            Ok(GoodMoveType::Move)
        }
    }

    /// The current player's entry cell holds a pawn of the player's own colour.
    pub open spec fn start_blocked(self) -> bool {
        let me = self.current();
        &&& in_grid(me.start_pos)
        &&& self.cell(me.start_pos).pawn matches Some(p)
        &&& p.color == me.pawn_color
    }

    /// Index of the deepest occupied final cell of the current player, if any is occupied.
    pub open spec fn top_safehouse(self) -> Option<int> {
        let me = self.current();
        if self.cell(me.safehouse_pos[3]).pawn is Some {
            Some(3)
        } else if self.cell(me.safehouse_pos[2]).pawn is Some {
            Some(2)
        } else if self.cell(me.safehouse_pos[1]).pawn is Some {
            Some(1)
        } else if self.cell(me.safehouse_pos[0]).pawn is Some {
            Some(0)
        } else {
            None
        }
    }

    /// Whether the pawn on `f` may go to `target` with the current roll, and if not, why.
    ///
    /// A pawn on a resting cell may only enter the ring: with a six, on the player's own
    /// entry cell, unless a pawn of the same colour stands there. Any other pawn must be
    /// on the path, as must the target. A final cell may not lie beyond the deepest
    /// occupied one; while none is occupied, every final cell is open. Otherwise the
    /// target must lie exactly the roll ahead and hold no pawn of the mover's colour.
    pub open spec fn verdict(self, f: Field, target: (usize, usize)) -> Result<
        GoodMoveType,
        BadMoveType,
    > {
        let me = self.current();
        let goal = self.cell(target);
        match f.pawn {
            None => Err(BadMoveType::Generic),
            Some(sp) => if f.kind == me.home_field_kind {
                if self.curr_player.roll != Some(6usize) {
                    Err(BadMoveType::DidntRoll6)
                } else if self.start_blocked() {
                    Err(BadMoveType::StartOccupied)
                } else if goal.kind != me.start_field_kind {
                    Err(BadMoveType::WrongStart)
                } else {
                    Ok(GoodMoveType::Start)
                }
            } else {
                match (slot_of(self.path_map, sp.position), slot_of(self.path_map, target)) {
                    (Some(from), Some(to)) => {
                        if goal.kind == me.safehouse_kind && self.top_safehouse() is None {
                            Ok(GoodMoveType::Move)
                        } else if goal.kind == me.safehouse_kind && slot_of(
                            self.path_map,
                            me.safehouse_pos[self.top_safehouse()->0],
                        ) is None {
                            Err(BadMoveType::Generic)
                        } else if goal.kind == me.safehouse_kind && to > slot_of(
                            self.path_map,
                            me.safehouse_pos[self.top_safehouse()->0],
                        )->0 {
                            Err(BadMoveType::CantSkipSafehousePawn)
                        } else {
                            match self.curr_player.roll {
                                None => Err(BadMoveType::Generic),
                                Some(roll) => if spec_field_diff(to as int, from as int) != roll {
                                    Err(BadMoveType::UnreachableField)
                                } else if (goal.pawn matches Some(np) && np.color == sp.color) {
                                    Err(BadMoveType::CantEatOwnPawn)
                                } else {
                                    Ok(GoodMoveType::Move)
                                },
                            }
                        }
                    },
                    _ => Err(BadMoveType::Generic),
                }
            },
        }
    }

    /// The state after the hover has been put on `pos`; nothing changes where `pos` is
    /// not on the path.
    pub open spec fn focused(self, pos: (usize, usize)) -> GameView {
        match slot_of(self.path_map, pos) {
            Some(key) => {
                let left = self.curr_player.curr_hover_position;
                let board = board_put(self.board, Field { is_hovered: false, ..self.cell(left) });
                GameView {
                    curr_player: CurrentPlayer {
                        prev_hover_position: left,
                        prev_hover_flat: self.curr_player.curr_hover_flat,
                        curr_hover_flat: key,
                        curr_hover_position: pos,
                        ..self.curr_player
                    },
                    board: board_put(
                        board,
                        Field { is_hovered: true, ..board[pos.0 as int][pos.1 as int] },
                    ),
                    ..self
                }
            },
            None => self,
        }
    }

    /// The hover obeys the arrow keys: dice rolled, a pawn picked and its target sought.
    pub open spec fn hover_active(self) -> bool {
        self.curr_player.roll is Some && self.curr_player.player_action == PlayerAction::Hovering
    }

    /// The state after the hover has taken one step in direction `dir`.
    pub open spec fn hovered(self, dir: HoverDir) -> GameView {
        if !self.hover_active() {
            self
        } else {
            let here = self.curr_player.curr_hover_position;
            let from = self.curr_player.curr_hover_flat;
            let to = if spec_normalize_dir(
                self.should_normalize_movement,
                here.0 as int,
                here.1 as int,
                dir,
            ) == RelativeMove::Forward {
                ((from + 1) % 44) as usize
            } else {
                ((from + 43) % 44) as usize
            };
            let board = if self.path_map.contains_key(from) {
                board_put(self.board, Field { is_hovered: false, ..self.cell(self.path_map[from]) })
            } else {
                self.board
            };
            let moved = CurrentPlayer {
                prev_hover_position: here,
                prev_hover_flat: from,
                curr_hover_flat: to,
                ..self.curr_player
            };
            if self.path_map.contains_key(to) {
                let pos = self.path_map[to];
                GameView {
                    curr_player: CurrentPlayer { curr_hover_position: pos, ..moved },
                    board: board_put(
                        board,
                        Field { is_hovered: true, ..board[pos.0 as int][pos.1 as int] },
                    ),
                    ..self
                }
            } else {
                GameView { curr_player: moved, board, ..self }
            }
        }
    }

    /// The state after the turn has passed to the next player in seating order: the
    /// cursor starts afresh, the path map is that of the new player's frame, and the
    /// hover rests on the new player's entry cell.
    pub open spec fn next_turn(self) -> GameView {
        let passed = GameView {
            curr_player: CurrentPlayer {
                id: ((self.curr_player.id + 1) % (self.players.len() as int)) as usize,
                ..self.curr_player.restarted()
            },
            message: "Press SPACE to roll!"@,
            ..self
        };
        (GameView {
            path_map: path_in_frame(passed.frame(), passed.current().safehouse_pos),
            ..passed
        }).focused(passed.current().start_pos)
    }

    /// Player `p` has all four pawns out and all four final cells filled.
    pub open spec fn has_won(self, p: int) -> bool {
        let pl = self.players[p];
        &&& pl.pawns_on_board == 4
        &&& forall|k: int| 0 <= k < 4 ==> (#[trigger] self.cell(pl.safehouse_pos[k])).pawn is Some
    }

    /// The first player, in seating order, who has won.
    pub open spec fn winner(self) -> Option<int> {
        if exists|p: int| self.is_first_winner(p) {
            Some(choose|p: int| self.is_first_winner(p))
        } else {
            None
        }
    }

    pub open spec fn is_first_winner(self, p: int) -> bool {
        &&& 0 <= p < self.players.len()
        &&& self.has_won(p)
        &&& forall|q: int| 0 <= q < p ==> !self.has_won(q)
    }

    /// The current player has no pawn to move: none is out and the roll is no six.
    pub open spec fn stuck(self) -> bool {
        &&& self.curr_player.roll matches Some(roll)
        &&& roll != 6
        &&& self.current().pawns_on_board == 0
    }
}


/// How many pawns of `player` are away from their resting cells.
pub open spec fn away_count(player: Player) -> int {
    (if player.pawn_at_home(0) { 0int } else { 1 })
        + (if player.pawn_at_home(1) { 0int } else { 1 })
        + (if player.pawn_at_home(2) { 0int } else { 1 })
        + (if player.pawn_at_home(3) { 0int } else { 1 })
}

/// The path map of a frame turned by `turns` quarter turns: the ring, renumbered so that
/// slot 0 lies `turns` times ten cells further on, and then the four given final cells.
pub open spec fn path_in_frame(turns: int, safehouse: [(usize, usize); 4]) -> Map<
    usize,
    (usize, usize),
> {
    Map::new(
        |k: usize| k < 44,
        |k: usize|
            if k < 40 {
                ring_pos((k + 10 * turns) % 40)
            } else {
                safehouse[k - 40]
            },
    )
}

/// The players as they sit down to a match: each at its own index, none moved, no
/// colour twice.
pub open spec fn is_fresh_roster(players: Seq<Player>) -> bool {
    &&& 1 <= players.len()
    &&& forall|p: int|
        0 <= p < players.len() ==> (#[trigger] players[p]).id == p && players[p].is_fresh(
            players[p].id,
            players[p].order,
            players[p].pawn_color,
        )
    &&& forall|p: int, q: int|
        0 <= p < q < players.len() ==> (#[trigger] players[p]).pawn_color != (
        #[trigger] players[q]).pawn_color
}

/// Pawn `k` of player `p` rests on the cell at `pos`.
pub open spec fn rests_at(players: Seq<Player>, pos: (usize, usize), p: int, k: int) -> bool {
    0 <= p < players.len() && 0 <= k < 4 && players[p].home_pos[k] == pos
}

/// Every slot of `path_map` is one of the forty-four of a path.
pub open spec fn slots_bounded(path_map: Map<usize, (usize, usize)>) -> bool {
    forall|k: usize| path_map.contains_key(k) ==> k < 44
}

impl GameView {
    /// Every player sits at its own index, has the cells of its colour and owns its four
    /// pawns; no colour is played twice.
    pub open spec fn roster_wf(self) -> bool {
        &&& 1 <= self.players.len()
        &&& forall|p: int|
            0 <= p < self.players.len() ==> {
                &&& (#[trigger] self.players[p]).id == p
                &&& self.players[p].has_layout_of_color()
                &&& forall|k: int| 0 <= k < 4 ==> self.players[p].owns_pawn(k)
            }
        &&& forall|p: int, q: int|
            0 <= p < q < self.players.len() ==> (#[trigger] self.players[p]).pawn_color != (
            #[trigger] self.players[q]).pawn_color
    }

    /// Every cell has the kind of the fixed layout and knows its own coordinates.
    pub open spec fn board_wf(self) -> bool {
        forall|pos: (usize, usize)|
            in_grid(pos) ==> {
                &&& (#[trigger] self.cell(pos)).kind == layout_kind(pos.0 as int, pos.1 as int)
                &&& self.cell(pos).position == pos
                &&& self.cell(pos).is_visible == (self.cell(pos).kind != FieldKind::Gap)
            }
    }

    /// The board and the players agree on every pawn: a pawn stands on the cell that its
    /// position names, and a cell holds the pawn that its owner's array holds. No pawn
    /// stands on a resting cell other than its own.
    pub open spec fn in_lockstep(self) -> bool {
        &&& forall|p: int, k: int|
            0 <= p < self.players.len() && 0 <= k < 4 ==> {
                &&& in_grid((#[trigger] self.pawn(p, k)).position)
                &&& self.cell(self.pawn(p, k).position).pawn == Some(self.pawn(p, k))
                &&& (self.players[p].pawn_at_home(k) || !layout_kind(
                    self.pawn(p, k).position.0 as int,
                    self.pawn(p, k).position.1 as int,
                ).is_home())
            }
        &&& forall|pos: (usize, usize)|
            in_grid(pos) ==> ((#[trigger] self.occupant(pos)) matches Some(pw) ==> {
                &&& pw.player_id < self.players.len()
                &&& pw.id < 4
                &&& self.pawn(pw.player_id as int, pw.id as int) == pw
                &&& pw.position == pos
            })
    }

    /// Each player's count of pawns on the board is the number of its pawns that are away
    /// from their resting cells.
    pub open spec fn counts_match(self) -> bool {
        forall|p: int|
            0 <= p < self.players.len() ==> (#[trigger] self.players[p]).pawns_on_board
                == away_count(self.players[p])
    }

    /// Quarter turns between the frame of the path map and the frame in which the match
    /// began.
    pub open spec fn frame(self) -> int {
        (self.current().pawn_color.spec_ordinal() - self.players[0].pawn_color.spec_ordinal()) % 4
    }

    /// The path map holds the ring, turned into the current frame, and then the current
    /// player's final cells.
    pub open spec fn path_wf(self) -> bool {
        self.path_map == path_in_frame(self.frame(), self.current().safehouse_pos)
    }

    /// The cursor names a player and, if any, one of the four pawns; a pawn is picked
    /// while its target is sought; and until the dice are rolled the turn waits for the
    /// roll with no pawn picked.
    pub open spec fn cursor_wf(self) -> bool {
        &&& self.curr_player.id < self.players.len()
        &&& (self.curr_player.selected_pawn_id matches Some(k) ==> k < 4)
        &&& (self.curr_player.player_action == PlayerAction::Hovering
            ==> self.curr_player.selected_pawn_id is Some)
        &&& (self.curr_player.roll is None ==> self.curr_player.selected_pawn_id is None
            && self.curr_player.player_action == PlayerAction::WaitingRoll)
        &&& in_grid(self.curr_player.curr_hover_position)
    }

    /// The hover rests on the cell of its slot.
    pub open spec fn hover_wf(self) -> bool {
        &&& self.curr_player.curr_hover_flat < 44
        &&& self.path_map.contains_key(self.curr_player.curr_hover_flat)
        &&& self.path_map[self.curr_player.curr_hover_flat] == self.curr_player.curr_hover_position
    }

    /// The players, the kinds of the cells and the path are as play has them, wherever
    /// the pawns stand: what the verdict on a move rests on.
    pub open spec fn laid_out(self) -> bool {
        &&& self.roster_wf()
        &&& self.board_wf()
        &&& self.path_wf()
        &&& self.curr_player.id < self.players.len()
    }

    /// Everything that a reachable state needs, but for where the hover rests.
    pub open spec fn settled(self) -> bool {
        &&& self.roster_wf()
        &&& self.board_wf()
        &&& self.in_lockstep()
        &&& self.counts_match()
        &&& self.path_wf()
        &&& self.cursor_wf()
    }

    /// The state is one that play can reach.
    pub open spec fn wf(self) -> bool {
        &&& self.settled()
        &&& self.hover_wf()
    }

    /// `other` has the same players, pawns and path as `self`; at most hover marks differ.
    pub open spec fn same_pieces(self, other: GameView) -> bool {
        &&& other.players == self.players
        &&& other.path_map == self.path_map
        &&& other.curr_player.id == self.curr_player.id
        &&& forall|pos: (usize, usize)|
            in_grid(pos) ==> #[trigger] other.cell(pos) == (Field {
                is_hovered: other.cell(pos).is_hovered,
                ..self.cell(pos)
            })
    }
}

/// Reading a cell after a write: the written field at its position, the old field elsewhere.
pub proof fn lemma_board_put(board: [[Field; 13]; 13], f: Field, pos: (usize, usize))
    requires
        in_grid(f.position),
        in_grid(pos),
    ensures
        board_put(board, f)[pos.0 as int][pos.1 as int] == (if pos == f.position {
            f
        } else {
            board[pos.0 as int][pos.1 as int]
        }),
{
}

/// The least slot that leads to a cell is the slot of that cell.
pub proof fn lemma_slot_of_least(path_map: Map<usize, (usize, usize)>, pos: (usize, usize), k: usize)
    requires
        is_least_slot(path_map, pos, k),
    ensures
        slot_of(path_map, pos) == Some(k),
{
    let c = choose|c: usize| is_least_slot(path_map, pos, c);
    assert(is_least_slot(path_map, pos, c));
    if c < k {
        assert(path_map[c] != pos);
    }
    if k < c {
        assert(path_map[k] != pos);
    }
}

/// What `slot_of` finds is the least slot that leads to the cell; it finds none only where
/// no slot leads there.
pub proof fn lemma_slot_of(path_map: Map<usize, (usize, usize)>, pos: (usize, usize))
    ensures
        match slot_of(path_map, pos) {
            Some(k) => is_least_slot(path_map, pos, k),
            None => forall|q: usize| path_map.contains_key(q) ==> path_map[q] != pos,
        },
{
    if slot_of(path_map, pos) is None {
        assert forall|q: usize| path_map.contains_key(q) implies path_map[q] != pos by {
            if path_map[q] == pos {
                lemma_some_least_slot(path_map, pos, q);
            }
        }
    }
}

/// A player who has won and before whom no player has won is the winner.
pub proof fn lemma_first_winner(s: GameView, p: int)
    requires
        s.is_first_winner(p),
    ensures
        s.winner() == Some(p),
{
    let c = choose|c: int| s.is_first_winner(c);
    assert(s.is_first_winner(c));
    if c < p {
        assert(!s.has_won(c));
    }
    if p < c {
        assert(!s.has_won(p));
    }
}

/// Where some slot leads to a cell, a least one does.
pub proof fn lemma_some_least_slot(path_map: Map<usize, (usize, usize)>, pos: (usize, usize), q: usize)
    requires
        path_map.contains_key(q),
        path_map[q] == pos,
    ensures
        exists|k: usize| is_least_slot(path_map, pos, k),
    decreases q,
{
    if exists|r: usize| r < q && path_map.contains_key(r) && path_map[r] == pos {
        let r = choose|r: usize| r < q && path_map.contains_key(r) && path_map[r] == pos;
        lemma_some_least_slot(path_map, pos, r);
    } else {
        assert(is_least_slot(path_map, pos, q));
    }
}

/// Every slot of the path map leads to a cell of the grid that is no resting cell: the
/// slots below forty to the ring, the others to the final cells of the current player.
pub proof fn lemma_path_cell(s: GameView, k: usize)
    requires
        s.roster_wf(),
        s.path_wf(),
        s.curr_player.id < s.players.len(),
        k < 44,
    ensures
        in_grid(s.path_map[k]),
        !layout_kind(s.path_map[k].0 as int, s.path_map[k].1 as int).is_home(),
        k < 40 ==> is_ring_kind(layout_kind(s.path_map[k].0 as int, s.path_map[k].1 as int)),
        k >= 40 ==> s.path_map[k] == s.current().safehouse_pos[k - 40] && layout_kind(
            s.path_map[k].0 as int,
            s.path_map[k].1 as int,
        ) == s.current().safehouse_kind,
{
    if k < 40 {
        lemma_ring_cell((k + 10 * s.frame()) % 40);
    } else {
        assert(s.current().has_layout_of_color());
    }
}

/// What holds of the players and the board holds of every state with the same players
/// and the same board.
pub proof fn lemma_pieces_carry(s: GameView, t: GameView)
    requires
        s.roster_wf(),
        s.board_wf(),
        s.in_lockstep(),
        s.counts_match(),
        t.players == s.players,
        t.board == s.board,
    ensures
        t.roster_wf(),
        t.board_wf(),
        t.in_lockstep(),
        t.counts_match(),
{
    assert forall|pos: (usize, usize)| in_grid(pos) implies {
        &&& (#[trigger] t.cell(pos)).kind == layout_kind(pos.0 as int, pos.1 as int)
        &&& t.cell(pos).position == pos
        &&& t.cell(pos).is_visible == (t.cell(pos).kind != FieldKind::Gap)
    } by {
        let _ = s.cell(pos);
    }
    assert forall|p: int, k: int| 0 <= p < t.players.len() && 0 <= k < 4 implies {
        &&& in_grid((#[trigger] t.pawn(p, k)).position)
        &&& t.cell(t.pawn(p, k).position).pawn == Some(t.pawn(p, k))
        &&& (t.players[p].pawn_at_home(k) || !layout_kind(
            t.pawn(p, k).position.0 as int,
            t.pawn(p, k).position.1 as int,
        ).is_home())
    } by {
        let _ = s.pawn(p, k);
    }
    assert forall|pos: (usize, usize)| in_grid(pos) implies ((#[trigger] t.occupant(
        pos,
    )) matches Some(pw) ==> {
        &&& pw.player_id < t.players.len()
        &&& pw.id < 4
        &&& t.pawn(pw.player_id as int, pw.id as int) == pw
        &&& pw.position == pos
    }) by {
        let _ = s.occupant(pos);
    }
}

/// Moving hover marks keeps a reachable state reachable.
pub proof fn lemma_same_pieces_wf(s: GameView, t: GameView)
    requires
        s.settled(),
        s.same_pieces(t),
        t.cursor_wf(),
        t.hover_wf(),
    ensures
        t.wf(),
{
    assert(t.board_wf()) by {
        assert forall|pos: (usize, usize)| in_grid(pos) implies {
            &&& (#[trigger] t.cell(pos)).kind == layout_kind(pos.0 as int, pos.1 as int)
            &&& t.cell(pos).position == pos
            &&& t.cell(pos).is_visible == (t.cell(pos).kind != FieldKind::Gap)
        } by {
            let _ = s.cell(pos);
        }
    }
    assert(t.in_lockstep()) by {
        assert forall|p: int, k: int| 0 <= p < t.players.len() && 0 <= k < 4 implies {
            &&& in_grid((#[trigger] t.pawn(p, k)).position)
            &&& t.cell(t.pawn(p, k).position).pawn == Some(t.pawn(p, k))
            &&& (t.players[p].pawn_at_home(k) || !layout_kind(
                t.pawn(p, k).position.0 as int,
                t.pawn(p, k).position.1 as int,
            ).is_home())
        } by {
            let _ = s.pawn(p, k);
            let _ = s.cell(s.pawn(p, k).position);
        }
        assert forall|pos: (usize, usize)| in_grid(pos) implies ((#[trigger] t.occupant(
            pos,
        )) matches Some(pw) ==> {
            &&& pw.player_id < t.players.len()
            &&& pw.id < 4
            &&& t.pawn(pw.player_id as int, pw.id as int) == pw
            &&& pw.position == pos
        }) by {
            let _ = s.occupant(pos);
            let _ = t.cell(pos);
        }
    }
    assert(t.frame() == s.frame());
}

impl GameMainScreen {
    /// The player whose turn it is.
    pub fn get_current_player(&self) -> (player: &Player)
        requires
            self.curr_player.id < self.players.len(),
        ensures
            *player == self@.current(),
    {
        &self.players[self.curr_player.id]
    }

    /// The pawn that the current player has picked.
    pub fn get_current_pawn(&self) -> (pawn: &Pawn)
        requires
            self.curr_player.id < self.players.len(),
            self.curr_player.selected_pawn_id matches Some(k) && k < 4,
        ensures
            *pawn == self@.pawn(self.curr_player.id as int, self.curr_player.selected_pawn_id->0 as int),
    {
        &self.players[self.curr_player.id].pawns[self.curr_player.selected_pawn_id.unwrap()]
    }

    /// The field on which pawn `pawn_id` of the current player stands.
    pub fn get_pawn_field(&self, pawn_id: usize) -> (f: Field)
        requires
            self.curr_player.id < self.players.len(),
            pawn_id < 4,
            in_grid(self@.pawn(self.curr_player.id as int, pawn_id as int).position),
        ensures
            f == self@.cell(self@.pawn(self.curr_player.id as int, pawn_id as int).position),
    {
        let (pi, pj) = self.players[self.curr_player.id].pawns[pawn_id].position;
        self.board[pi][pj]
    }

    /// Writes `field` to the board at its own position and, where it carries a pawn, that
    /// pawn to its owner's array. This is the one write through which the board and the
    /// players change together; a caller that moves a pawn writes both the cell left and
    /// the cell reached.
    pub fn update_field(&mut self, field: Field)
        requires
            in_grid(field.position),
            field.pawn matches Some(pw) ==> pw.player_id < old(self).players.len() && pw.id < 4,
        ensures
            final(self)@ == old(self)@.written(field),
    {
        if let Some(pawn) = field.pawn {
            self.players[pawn.player_id].pawns[pawn.id] = pawn;
        }
        self.board[field.position.0][field.position.1] = field;
    }

    /// The slot of the cell at `pos`, if the path leads there: the least one, where several
    /// slots lead to the cell.
    pub fn flat_from_pos(&self, pos: (usize, usize)) -> (slot: Option<usize>)
        ensures
            slot == slot_of(self@.path_map, pos),
    {
        let mut least: Option<usize> = None;
        for entry in it: self.path_map.iter()
            invariant
                forall|k: usize| #[trigger]
                    self.path_map@.contains_key(k) ==> exists|i: int|
                        0 <= i < it.seq().len() && *(#[trigger] it.seq()[i]).0 == k,
                forall|i: int|
                    0 <= i < it.seq().len() ==> self.path_map@.contains_key(
                        *(#[trigger] it.seq()[i]).0,
                    ) && self.path_map@[*it.seq()[i].0] == *it.seq()[i].1,
                match least {
                    Some(k) => self.path_map@.contains_key(k) && self.path_map@[k] == pos,
                    None => true,
                },
                forall|i: int|
                    0 <= i < it.index() && *(#[trigger] it.seq()[i]).1 == pos ==> least is Some
                        && least->0 <= *it.seq()[i].0,
        {
            let (key, cell) = entry;
            if cell.0 == pos.0 && cell.1 == pos.1 {
                let better: bool = match least {
                    Some(k) => *key < k,
                    None => true,
                };
                if better {
                    least = Some(*key);
                }
            }
        }
        proof {
            match least {
                Some(k) => {
                    lemma_slot_of_least(self.path_map@, pos, k);
                },
                None => {
                    lemma_slot_of(self.path_map@, pos);
                },
            }
        }
        least
    }

    /// Puts the hover on the cell at `pos`, whether or not it rested on its slot before.
    pub(crate) fn set_hover(&mut self, pos: (usize, usize))
        requires
            old(self)@.settled(),
            in_grid(pos),
        ensures
            final(self)@ == old(self)@.focused(pos),
            final(self)@.settled(),
            old(self)@.hover_wf() || slot_of(old(self)@.path_map, pos) is Some ==> final(self)@.wf(),
    {
        if let Some(key) = self.flat_from_pos(pos) {
            self.curr_player.prev_hover_position = self.curr_player.curr_hover_position;
            self.curr_player.prev_hover_flat = self.curr_player.curr_hover_flat;

            let (ci, cj) = self.curr_player.curr_hover_position;
            proof {
                lemma_slot_of(self@.path_map, pos);
            }

            self.board[ci][cj].is_hovered = false;
            self.board[pos.0][pos.1].is_hovered = true;

            self.curr_player.curr_hover_flat = key;
            self.curr_player.curr_hover_position = pos;
            proof {
                let s = old(self)@;
                let left = s.curr_player.curr_hover_position;
                assert(s.cell(left).position == left && s.cell(pos).position == pos);
                assert(self@.board =~= s.focused(pos).board);
                assert(self@ == s.focused(pos));
                super::reachable::lemma_focused_wf(s, pos);
            }
        } else {
            proof {
                lemma_slot_of(self@.path_map, pos);
            }
        }
    }

    /// Puts the hover on the cell at `pos`; does nothing where the path does not lead there.
    pub fn focus_field(&mut self, pos: (usize, usize))
        requires
            old(self)@.wf(),
            in_grid(pos),
        ensures
            final(self)@ == old(self)@.focused(pos),
            final(self)@.wf(),
    {
        self.set_hover(pos);
    }

    /// Captures the pawn on `losing_pawn_curr_field`: the pawn returns to its resting cell,
    /// its owner has one pawn fewer on the board, and the field is left empty and unmarked.
    /// An empty field changes nothing.
    pub fn eat_pawn(&mut self, losing_pawn_curr_field: &mut Field)
        requires
            old(self)@.wf(),
            old(losing_pawn_curr_field).pawn matches Some(lp) ==> {
                &&& in_grid(old(losing_pawn_curr_field).position)
                &&& *old(losing_pawn_curr_field) == old(self)@.cell(
                    old(losing_pawn_curr_field).position,
                )
                &&& !old(self)@.players[lp.player_id as int].pawn_at_home(lp.id as int)
            },
        ensures
            final(self)@ == old(self)@.captured(*old(losing_pawn_curr_field)),
            *final(losing_pawn_curr_field) == (if old(losing_pawn_curr_field).pawn is Some {
                vacated(*old(losing_pawn_curr_field))
            } else {
                *old(losing_pawn_curr_field)
            }),
            final(self)@.wf(),
    {
        if let Some(mut losing_pawn) = losing_pawn_curr_field.pawn {
            proof {
                lemma_capture_wf(old(self)@, *old(losing_pawn_curr_field));
            }
            let (hi, hj): (usize, usize) =
                self.players[losing_pawn.player_id].home_pos[losing_pawn.id];
            let mut losing_pawn_home_field: Field = self.board[hi][hj];

            losing_pawn.position = (hi, hj);
            losing_pawn_home_field.pawn = Some(losing_pawn);
            let out: usize = self.players[losing_pawn.player_id].pawns_on_board;
            self.players[losing_pawn.player_id].pawns_on_board = out - 1;
            assert(losing_pawn_home_field.position == (hi, hj)) by {
                let _ = old(self)@.cell((hi, hj));
            }
            assert(self@.players =~= old(self)@.players.update(
                losing_pawn.player_id as int,
                Player {
                    pawns_on_board: (old(self)@.players[losing_pawn.player_id as int].pawns_on_board
                        - 1) as usize,
                    ..old(self)@.players[losing_pawn.player_id as int]
                },
            ));
            self.update_field(losing_pawn_home_field);

            losing_pawn_curr_field.pawn = None;
            losing_pawn_curr_field.is_hovered = false;
            self.update_field(*losing_pawn_curr_field);
        }
    }

    /// Moves the pawn on `selected_pawn_field` to the cell at `target`. A pawn of another
    /// colour that stands there is captured first. The field left is written back empty,
    /// the field reached holds the pawn and loses its hover mark, and a pawn that leaves
    /// its resting cell is counted as out. Reports `EatMove` where a pawn was captured,
    /// `Move` otherwise, and `Generic` for a field without a pawn, which changes nothing.
    /// The state stays one that play can reach unless the pawn is set down on a resting
    /// cell.
    pub fn move_pawn(&mut self, selected_pawn_field: &mut Field, target: (usize, usize)) -> (moved:
        Result<GoodMoveType, BadMoveType>)
        requires
            old(self)@.wf(),
            old(selected_pawn_field).pawn matches Some(sp) ==> {
                &&& in_grid(old(selected_pawn_field).position)
                &&& in_grid(target)
                &&& *old(selected_pawn_field) == old(self)@.cell(old(selected_pawn_field).position)
                &&& old(self)@.can_take(*old(selected_pawn_field), target)
            },
        ensures
            moved == old(self)@.move_outcome(*old(selected_pawn_field), target),
            final(self)@ == (if old(selected_pawn_field).pawn is Some {
                old(self)@.moved(*old(selected_pawn_field), target)
            } else {
                old(self)@
            }),
            *final(selected_pawn_field) == (Field { pawn: None, ..*old(selected_pawn_field) }),
            old(selected_pawn_field).pawn is None || !layout_kind(
                target.0 as int,
                target.1 as int,
            ).is_home() ==> final(self)@.wf(),
    {
        if let Some(mut selected_pawn) = selected_pawn_field.pawn {
            proof {
                lemma_move_wf(old(self)@, *old(selected_pawn_field), target);
            }
            let mut hovered_field: Field = self.board[target.0][target.1];
            let mut move_type: GoodMoveType = GoodMoveType::Move;
            let leaves_home: bool = selected_pawn_field.kind
                == self.players[selected_pawn.player_id].home_field_kind;

            if let Some(hovered_pawn) = hovered_field.pawn {
                if selected_pawn.color != hovered_pawn.color {
                    assert(hovered_field.position == target) by {
                        let _ = old(self)@.cell(target);
                    }
                    self.eat_pawn(&mut hovered_field);
                    move_type = GoodMoveType::EatMove;
                }
            }
            let ghost before = self@;
            assert(before == (if old(self)@.captures(*old(selected_pawn_field), target) {
                old(self)@.captured(old(self)@.cell(target))
            } else {
                old(self)@
            }));
            assert(hovered_field == before.cell(target));
            assert(hovered_field.position == target) by {
                let _ = old(self)@.cell(target);
            }
            assert(leaves_home == before.leaves_home(*old(selected_pawn_field))) by {
                if old(self)@.captures(*old(selected_pawn_field), target) {
                    lemma_capture_wf(old(self)@, old(self)@.cell(target));
                }
            }

            selected_pawn.position = target;
            hovered_field.pawn = Some(selected_pawn);
            hovered_field.is_hovered = false;

            selected_pawn_field.pawn = None;

            self.update_field(*selected_pawn_field);
            self.update_field(hovered_field);

            if leaves_home {
                let out: usize = self.players[selected_pawn.player_id].pawns_on_board;
                assert(out == before.players[selected_pawn.player_id as int].pawns_on_board) by {
                    super::lockstep::lemma_written(
                        before,
                        Field { pawn: None, ..*old(selected_pawn_field) },
                    );
                    super::lockstep::lemma_written(
                        before.written(Field { pawn: None, ..*old(selected_pawn_field) }),
                        hovered_field,
                    );
                }
                let ghost placed = self@;
                self.players[selected_pawn.player_id].pawns_on_board = out + 1;
                assert(self@.players =~= placed.players.update(
                    selected_pawn.player_id as int,
                    Player {
                        pawns_on_board: (placed.players[selected_pawn.player_id as int].pawns_on_board
                            + 1) as usize,
                        ..placed.players[selected_pawn.player_id as int]
                    },
                ));
            }
            assert(self@ == before.relocated(*old(selected_pawn_field), target));

            return Ok(move_type);
        }
        Err(BadMoveType::Generic)
    }

    /// The step that an arrow key stands for while the hover is at row `ci`, column `cj`.
    /// Where movement is normalized, "up" and "right" mean forward only on the cells on
    /// which the ring runs that way on the screen.
    pub fn normalize_dir(&self, ci: usize, cj: usize, dir: HoverDir) -> (step: RelativeMove)
        ensures
            step == spec_normalize_dir(self.should_normalize_movement, ci as int, cj as int, dir),
    {
        if self.should_normalize_movement {
            if (ci <= 4 && cj == 8) && dir == HoverDir::Up {
                return RelativeMove::Back;
            } else if (ci <= 4 && cj == 8) && dir == HoverDir::Down {
                return RelativeMove::Forward;
            } else if (ci >= 4 && cj == 12) && dir == HoverDir::Up {
                return RelativeMove::Back;
            } else if (ci >= 4 && cj == 12) && dir == HoverDir::Down {
                return RelativeMove::Forward;
            } else if (ci == 8 && cj >= 6) && dir == HoverDir::Left {
                return RelativeMove::Forward;
            } else if (ci == 8 && cj >= 6) && dir == HoverDir::Right {
                return RelativeMove::Back;
            } else if (ci >= 8 && cj == 8) && dir == HoverDir::Up {
                return RelativeMove::Back;
            } else if (ci >= 8 && cj == 8) && dir == HoverDir::Down {
                return RelativeMove::Forward;
            } else if (ci == 12 && cj <= 8) && dir == HoverDir::Left {
                return RelativeMove::Forward;
            } else if (ci == 12 && cj <= 8) && dir == HoverDir::Right {
                return RelativeMove::Back;
            } else if (ci == 8 && cj <= 4) && dir == HoverDir::Left {
                return RelativeMove::Forward;
            } else if (ci == 8 && cj <= 4) && dir == HoverDir::Right {
                return RelativeMove::Back;
            }
        }
        match dir {
            HoverDir::Right | HoverDir::Up => RelativeMove::Forward,
            HoverDir::Left | HoverDir::Down => RelativeMove::Back,
        }
    }

    /// The first player, in seating order, with all four pawns out and all four final cells
    /// filled; `Err(false)` where there is none.
    pub fn check_winner(&self) -> (won: Result<usize, bool>)
        requires
            self@.wf(),
        ensures
            match won {
                Ok(id) => self@.winner() == Some(id as int),
                Err(flag) => !flag && self@.winner() is None,
            },
    {
        let mut p: usize = 0;
        while p < self.players.len()
            invariant
                self@.wf(),
                p <= self.players.len(),
                forall|q: int| 0 <= q < p ==> !self@.has_won(q),
            decreases self.players.len() - p,
        {
            if self.players[p].pawns_on_board == 4 {
                let mut in_safehouse: usize = 0;
                let mut k: usize = 0;
                while k < 4
                    invariant
                        self@.wf(),
                        p < self.players.len(),
                        k <= 4,
                        in_safehouse <= k,
                        in_safehouse == k <==> forall|j: int|
                            0 <= j < k ==> (#[trigger] self@.cell(
                                self@.players[p as int].safehouse_pos[j],
                            )).pawn is Some,
                    decreases 4 - k,
                {
                    let (i, j) = self.players[p].safehouse_pos[k];
                    assert(in_grid((i, j))) by {
                        assert(self@.players[p as int].has_layout_of_color());
                    }
                    let ghost here = self@.cell(self@.players[p as int].safehouse_pos[k as int]);
                    assert(self.board[i as int][j as int] == here);
                    let ghost before = in_safehouse;
                    if self.board[i][j].pawn.is_some() {
                        in_safehouse += 1;
                    }
                    k += 1;
                    proof {
                        if in_safehouse == k {
                            assert(before == k - 1);
                            assert forall|m: int| 0 <= m < k implies (#[trigger] self@.cell(
                                self@.players[p as int].safehouse_pos[m],
                            )).pawn is Some by {
                                if m == k - 1 {
                                    assert(here.pawn is Some);
                                }
                            }
                        } else if before == k - 1 {
                            assert(here.pawn is None);
                        } else {
                            let m = choose|m: int|
                                0 <= m < k - 1 && !((#[trigger] self@.cell(
                                    self@.players[p as int].safehouse_pos[m],
                                )).pawn is Some);
                            assert(0 <= m < k);
                        }
                    }
                }
                if in_safehouse == 4 {
                    proof {
                        assert(self@.players[p as int].id == p);
                        lemma_first_winner(self@, p as int);
                    }
                    return Ok(self.players[p].id);
                }
            }
            p += 1;
        }
        proof {
            if self@.winner() is Some {
                let c = choose|c: int| self@.is_first_winner(c);
                assert(self@.has_won(c));
            }
        }
        Err(false)
    }

    /// Whether the roll leaves the current player a pawn to move: it does not where the
    /// roll is no six and none of the player's pawns is out.
    pub fn has_valid_moves(&self) -> (movable: Result<&'static str, NoValidMoveType>)
        requires
            self.curr_player.id < self.players.len(),
        ensures
            self@.stuck() ==> movable == Err::<&'static str, NoValidMoveType>(
                NoValidMoveType::NoPawnsNot6,
            ),
            !self@.stuck() ==> (movable matches Ok(text) && text@ == ""@),
    {
        if let Some(roll) = self.curr_player.roll {
            if roll != 6 {
                if self.get_current_player().pawns_on_board == 0 {
                    return Err(NoValidMoveType::NoPawnsNot6);
                }
            }
        }
        Ok("")
    }

    /// Index of the deepest occupied final cell of the current player.
    fn top_safehouse_index(&self) -> (top: Option<usize>)
        requires
            self@.roster_wf(),
            self.curr_player.id < self.players.len(),
        ensures
            match top {
                Some(i) => self@.top_safehouse() == Some(i as int) && i < 4,
                None => self@.top_safehouse() is None,
            },
    {
        let me: &Player = &self.players[self.curr_player.id];
        assert(me.has_layout_of_color());
        let mut i: usize = 4;
        while i > 0
            invariant
                self@.roster_wf(),
                self.curr_player.id < self.players.len(),
                *me == self@.current(),
                i <= 4,
                forall|j: int| i <= j < 4 ==> (#[trigger] self@.cell(me.safehouse_pos[j])).pawn is None,
            decreases i,
        {
            i -= 1;
            let (r, c) = me.safehouse_pos[i];
            assert(in_grid((r, c))) by {
                assert(me.has_layout_of_color());
            }
            if self.board[r][c].pawn.is_some() {
                assert(forall|j: int|
                    i < j < 4 ==> (#[trigger] self@.cell(me.safehouse_pos[j])).pawn is None);
                return Some(i);
            }
        }
        None
    }

    /// Whether the pawn on `selected_pawn_field` may go to the cell at `target` with the
    /// current roll, and if not, why. The verdict rests on the players' layouts, the
    /// kinds of the cells and the path alone, so it is owed on every board that has them
    /// right, wherever the pawns stand.
    pub fn is_valid_move(&self, selected_pawn_field: &Field, target: &(usize, usize)) -> (verdict:
        Result<GoodMoveType, BadMoveType>)
        requires
            self@.laid_out(),
            in_grid(*target),
        ensures
            verdict == self@.verdict(*selected_pawn_field, *target),
    {
        let selected_pawn = match selected_pawn_field.pawn {
            Some(pawn) => pawn,
            None => {
                return Err(BadMoveType::Generic);
            },
        };
        let selected_new_field: Field = self.board[target.0][target.1];
        let current_player: Player = self.players[self.curr_player.id];

        if selected_pawn_field.kind == current_player.home_field_kind {
            let rolled_six: bool = match self.curr_player.roll {
                Some(roll) => roll == 6,
                None => false,
            };
            if !rolled_six {
                return Err(BadMoveType::DidntRoll6);
            }
            let (si, sj): (usize, usize) = current_player.start_pos;
            if si < 13 && sj < 13 {
                if let Some(start_pawn) = self.board[si][sj].pawn {
                    if start_pawn.color == current_player.pawn_color {
                        return Err(BadMoveType::StartOccupied);
                    }
                }
            }
            if selected_new_field.kind != current_player.start_field_kind {
                return Err(BadMoveType::WrongStart);
            }
            return Ok(GoodMoveType::Start);
        }
        let pawn_field_flat: usize = match self.flat_from_pos(selected_pawn.position) {
            Some(slot) => slot,
            None => {
                return Err(BadMoveType::Generic);
            },
        };
        let new_field_flat: usize = match self.flat_from_pos(*target) {
            Some(slot) => slot,
            None => {
                return Err(BadMoveType::Generic);
            },
        };

        if selected_new_field.kind == current_player.safehouse_kind {
            match self.top_safehouse_index() {
                None => {
                    return Ok(GoodMoveType::Move);
                },
                Some(top) => {
                    match self.flat_from_pos(current_player.safehouse_pos[top]) {
                        None => {
                            return Err(BadMoveType::Generic);
                        },
                        Some(top_safehouse_flat) => {
                            if new_field_flat > top_safehouse_flat {
                                return Err(BadMoveType::CantSkipSafehousePawn);
                            }
                        },
                    }
                },
            }
        }
        match self.curr_player.roll {
            None => Err(BadMoveType::Generic),
            Some(roll) => {
                if field_diff(new_field_flat, pawn_field_flat) == roll {
                    if let Some(new_pawn) = selected_new_field.pawn {
                        if new_pawn.color == selected_pawn.color {
                            return Err(BadMoveType::CantEatOwnPawn);
                        }
                    }
                    Ok(GoodMoveType::Move)
                } else {
                    Err(BadMoveType::UnreachableField)
                }
            },
        }
    }

    /// Picks pawn `requested_pawn_id` of the current player for the move; the turn goes on
    /// to the search for a target. Fails, and changes nothing, where no index is given or
    /// the player has no such pawn. Once the dice are rolled, the state stays one that
    /// play can reach.
    pub fn select_pawn(&mut self, requested_pawn_id: Option<usize>) -> (picked: Result<
        &'static str,
        &'static str,
    >)
        requires
            old(self)@.wf(),
        ensures
            old(self).curr_player.roll is Some || picked is Err ==> final(self)@.wf(),
            match requested_pawn_id {
                Some(id) => if id < 4 {
                    &&& picked matches Ok(text) && text@ == ""@
                    &&& final(self)@ == (GameView {
                        curr_player: CurrentPlayer {
                            selected_pawn_id: Some(id),
                            player_action: PlayerAction::Hovering,
                            ..old(self).curr_player
                        },
                        ..old(self)@
                    })
                } else {
                    &&& picked matches Err(text) && text@ == "No pawn found"@
                    &&& final(self)@ == old(self)@
                },
                None => {
                    &&& picked matches Err(text) && text@ == "no pawn_id passed"@
                    &&& final(self)@ == old(self)@
                },
            },
    {
        if let Some(selected_pawn_id) = requested_pawn_id {
            if selected_pawn_id < 4 {
                let (sfi, sfj) = self.players[self.curr_player.id].pawns[selected_pawn_id].position;
                assert(in_grid((sfi, sfj))) by {
                    let _ = self@.pawn(self.curr_player.id as int, selected_pawn_id as int);
                }
                if sfi < 13 && sfj < 13 {
                    self.curr_player.selected_pawn_id = Some(selected_pawn_id);
                    self.curr_player.player_action = PlayerAction::Hovering;
                    proof {
                        assert(old(self)@.same_pieces(self@)) by {
                            assert forall|q: (usize, usize)| in_grid(q) implies #[trigger] self@.cell(
                                q,
                            ) == (Field {
                                is_hovered: self@.cell(q).is_hovered,
                                ..old(self)@.cell(q)
                            }) by {}
                        }
                        if old(self).curr_player.roll is Some {
                            lemma_same_pieces_wf(old(self)@, self@);
                        }
                    }
                    return Ok("");
                } else {
                    return Err("No field found");
                }
            } else {
                return Err("No pawn found");
            }
        } else {
            Err("no pawn_id passed")
        }
    }

    /// Moves the hover one slot along the path, forward or back as `curr_hover_dir` says
    /// at the cell on which it rests. Does nothing unless the dice are rolled and the
    /// target of a picked pawn is sought.
    pub fn hover_relative(&mut self, curr_hover_dir: HoverDir)
        requires
            old(self)@.wf(),
        ensures
            final(self)@ == old(self)@.hovered(curr_hover_dir),
            final(self)@.wf(),
    {
        if self.curr_player.can_hover() == false || self.curr_player.player_action
            != PlayerAction::Hovering {
            return ;
        }
        self.curr_player.prev_hover_position = self.curr_player.curr_hover_position;
        self.curr_player.prev_hover_flat = self.curr_player.curr_hover_flat;

        let (ci, cj) = self.curr_player.curr_hover_position;

        if self.normalize_dir(ci, cj, curr_hover_dir) == RelativeMove::Forward {
            self.curr_player.curr_hover_flat = (self.curr_player.curr_hover_flat + 1) % 44
        } else {
            self.curr_player.curr_hover_flat = (self.curr_player.curr_hover_flat + 43) % 44;
        }
        let prev_flat: usize = self.curr_player.prev_hover_flat;
        let curr_flat: usize = self.curr_player.curr_hover_flat;
        proof {
            lemma_path_cell(old(self)@, prev_flat);
            lemma_path_cell(old(self)@, curr_flat);
        }
        let ghost s = old(self)@;
        let ghost from_cell = s.path_map[prev_flat];
        let ghost to_cell = s.path_map[curr_flat];

        let prev_cell: Option<(usize, usize)> = match self.path_map.get(&prev_flat) {
            Some(cell) => Some(*cell),
            None => None,
        };
        if let Some((i, j)) = prev_cell {
            self.board[i][j].is_hovered = false;
        }
        let ghost b1 = self.board;
        let curr_cell: Option<(usize, usize)> = match self.path_map.get(&curr_flat) {
            Some(cell) => Some(*cell),
            None => None,
        };
        if let Some((i, j)) = curr_cell {
            self.curr_player.curr_hover_position = (i, j);
            self.board[i][j].is_hovered = true;
        }
        proof {
            let unmarked = Field { is_hovered: false, ..s.cell(from_cell) };
            assert(s.cell(from_cell).position == from_cell && s.cell(to_cell).position == to_cell);
            assert(b1 =~= board_put(s.board, unmarked));
            let marked = Field { is_hovered: true, ..b1[to_cell.0 as int][to_cell.1 as int] };
            assert(self@.board =~= board_put(b1, marked));
            assert(self@ == s.hovered(curr_hover_dir));
            super::reachable::lemma_hovered_wf(s, curr_hover_dir);
        }
    }
}

} // verus!
