//! Taking a match back from what a save holds, after checking that it is a state that
//! play can reach.

use vstd::prelude::*;

use super::current_player::CurrentPlayer;
use super::screen::away_count;
use super::screen::in_grid;
use super::screen::path_in_frame;
use super::screen::GameMainScreen;
use super::screen::GameState;
use super::screen::GameView;
use super::screen::PlayerAction;
use super::turn::path_of_next;
use crate::entities::board::get_path_map;
use crate::entities::board::initialize_board;
use crate::entities::board::layout_kind;
use crate::entities::field::Field;
use crate::entities::field::FieldKind;
use crate::entities::pawn::Pawn;
use crate::entities::pawn::PawnColor;
use crate::entities::player::Player;
use crate::screens::pause_menu::fs::FileInfo;
use crate::screens::pause_menu::screen::PauseMenu;

verus! {

/// Whether two pawns are the same in every respect.
pub fn same_pawn(a: &Pawn, b: &Pawn) -> (same: bool)
    ensures
        same == (*a == *b),
{
    a.id == b.id && a.color == b.color && a.player_id == b.player_id && a.position.0
        == b.position.0 && a.position.1 == b.position.1 && a.color_pallete.primary
        == b.color_pallete.primary && a.color_pallete.hovered == b.color_pallete.hovered
        && a.color_pallete.disabled == b.color_pallete.disabled
}

/// Whether the kind marks a resting cell.
pub fn is_home_kind(kind: FieldKind) -> (home: bool)
    ensures
        home == kind.is_home(),
{
    kind == FieldKind::RedHome || kind == FieldKind::GreenHome || kind == FieldKind::BlueHome
        || kind == FieldKind::YellowHome
}

/// Whether two cells are the same.
pub fn same_cell(a: (usize, usize), b: (usize, usize)) -> (same: bool)
    ensures
        same == (a == b),
{
    a.0 == b.0 && a.1 == b.1
}

/// Whether two players are the same in every respect.
pub fn same_player(a: &Player, b: &Player) -> (same: bool)
    ensures
        same == (*a == *b),
{
    if a.id != b.id || a.order != b.order || a.pawn_color != b.pawn_color || a.safehouse_kind
        != b.safehouse_kind || a.home_field_kind != b.home_field_kind || a.start_field_kind
        != b.start_field_kind || !same_cell(a.start_pos, b.start_pos) || a.pawns_on_board
        != b.pawns_on_board {
        return false;
    }
    let mut k: usize = 0;
    while k < 4
        invariant
            k <= 4,
            forall|j: int| 0 <= j < k ==> #[trigger] a.pawns[j] == b.pawns[j],
            forall|j: int| 0 <= j < k ==> #[trigger] a.home_pos[j] == b.home_pos[j],
            forall|j: int| 0 <= j < k ==> #[trigger] a.safehouse_pos[j] == b.safehouse_pos[j],
        decreases 4 - k,
    {
        if !same_pawn(&a.pawns[k], &b.pawns[k]) || !same_cell(a.home_pos[k], b.home_pos[k])
            || !same_cell(a.safehouse_pos[k], b.safehouse_pos[k]) {
            return false;
        }
        k += 1;
    }
    assert(a.pawns =~= b.pawns);
    assert(a.home_pos =~= b.home_pos);
    assert(a.safehouse_pos =~= b.safehouse_pos);
    true
}

/// Two players that are fresh for the same seat, order and colour are the same.
pub proof fn lemma_fresh_is_unique(a: Player, b: Player, id: usize, order: usize, color: PawnColor)
    requires
        a.is_fresh(id, order, color),
        b.is_fresh(id, order, color),
    ensures
        a == b,
{
    assert forall|k: int| 0 <= k < 4 implies a.pawns[k] == b.pawns[k] by {}
    assert forall|k: int| 0 <= k < 4 implies a.home_pos[k] == b.home_pos[k] by {}
    assert forall|k: int| 0 <= k < 4 implies a.safehouse_pos[k] == b.safehouse_pos[k] by {}
    assert(a.pawns =~= b.pawns);
    assert(a.home_pos =~= b.home_pos);
    assert(a.safehouse_pos =~= b.safehouse_pos);
}

/// What a save holds of a match: everything but the path map, which follows from the
/// rest, and the pause menu, which is opened afresh.
pub struct Snapshot {
    pub players: Vec<Player>,
    pub curr_player: CurrentPlayer,
    pub is_game_finished: bool,
    pub board: [[Field; 13]; 13],
    pub message: String,
    pub should_normalize_movement: bool,
    pub playing_colors: Vec<PawnColor>,
    pub game_winner: Option<Player>,
}

impl Snapshot {
    /// The running match that the snapshot describes, with the path map of the frame of
    /// the player whose turn it is. The pause menu is left open.
    pub open spec fn as_match(self) -> GameView {
        GameView {
            players: self.players@,
            state: GameState::RUNNING,
            curr_player: self.curr_player,
            is_game_finished: self.is_game_finished,
            board: self.board,
            path_map: path_in_frame(
                (self.players[self.curr_player.id as int].pawn_color.spec_ordinal()
                    - self.players[0].pawn_color.spec_ordinal()) % 4,
                self.players[self.curr_player.id as int].safehouse_pos,
            ),
            message: self.message@,
            should_normalize_movement: self.should_normalize_movement,
            playing_colors: self.playing_colors@,
            game_winner: self.game_winner,
            pause_menu: arbitrary(),
        }
    }

    /// The snapshot holds what `game` holds.
    pub open spec fn is_of(self, game: GameView) -> bool {
        &&& self.players@ == game.players
        &&& self.curr_player == game.curr_player
        &&& self.is_game_finished == game.is_game_finished
        &&& self.board == game.board
        &&& self.message@ == game.message
        &&& self.should_normalize_movement == game.should_normalize_movement
        &&& self.playing_colors@ == game.playing_colors
        &&& self.game_winner == game.game_winner
    }
}

/// A snapshot of a match in a state that play can reach describes that very match,
/// running: restoring it gives back every pawn, every count, the cursor, the path
/// and the message as they were.
pub proof fn lemma_snapshot_keeps_the_match(game: GameView, saved: Snapshot)
    requires
        game.wf(),
        saved.is_of(game),
    ensures
        saved.as_match().wf(),
        saved.as_match() == (GameView {
            state: GameState::RUNNING,
            pause_menu: saved.as_match().pause_menu,
            ..game
        }),
{
    let restored = saved.as_match();
    assert(restored.path_map == game.path_map);
    lemma_wf_but_state_and_menu(game, restored);
}

/// A copy of the players, one by one.
pub fn copy_players(players: &Vec<Player>) -> (copy: Vec<Player>)
    ensures
        copy@ == players@,
{
    let mut copy: Vec<Player> = Vec::new();
    let mut i: usize = 0;
    while i < players.len()
        invariant
            i <= players.len(),
            copy@ == players@.subrange(0, i as int),
        decreases players.len() - i,
    {
        copy.push(players[i]);
        assert(copy@ =~= players@.subrange(0, i + 1));
        i += 1;
    }
    assert(copy@ =~= players@);
    copy
}

/// A copy of the colours, one by one.
fn copy_colors(colors: &Vec<PawnColor>) -> (copy: Vec<PawnColor>)
    ensures
        copy@ == colors@,
{
    let mut copy: Vec<PawnColor> = Vec::new();
    let mut i: usize = 0;
    while i < colors.len()
        invariant
            i <= colors.len(),
            copy@ == colors@.subrange(0, i as int),
        decreases colors.len() - i,
    {
        copy.push(colors[i]);
        assert(copy@ =~= colors@.subrange(0, i + 1));
        i += 1;
    }
    assert(copy@ =~= colors@);
    copy
}

impl GameMainScreen {
    /// What a save is to hold of the match.
    pub fn snapshot(&self) -> (saved: Snapshot)
        ensures
            saved.is_of(self@),
    {
        Snapshot {
            players: copy_players(&self.players),
            curr_player: self.curr_player,
            is_game_finished: self.is_game_finished,
            board: self.board,
            message: self.message.clone(),
            should_normalize_movement: self.should_normalize_movement,
            playing_colors: copy_colors(&self.playing_colors),
            game_winner: self.game_winner,
        }
    }

    /// Whether every player sits at its own index, has the cells of its colour and owns
    /// its four pawns, and no colour is played twice.
    fn check_roster(&self) -> (ok: bool)
        ensures
            ok == self@.roster_wf(),
    {
        if self.players.len() < 1 {
            return false;
        }
        let mut p: usize = 0;
        while p < self.players.len()
            invariant
                p <= self.players.len(),
                forall|q: int|
                    0 <= q < p ==> {
                        &&& (#[trigger] self@.players[q]).id == q
                        &&& self@.players[q].has_layout_of_color()
                        &&& forall|k: int| 0 <= k < 4 ==> self@.players[q].owns_pawn(k)
                    },
                forall|q: int, r: int|
                    0 <= q < r < p ==> (#[trigger] self@.players[q]).pawn_color != (
                    #[trigger] self@.players[r]).pawn_color,
            decreases self.players.len() - p,
        {
            let player: Player = self.players[p];
            let fresh: Player = Player::new(p, player.order, player.pawn_color);
            assert(fresh.has_layout_of_color());
            if player.id != p || player.home_field_kind != fresh.home_field_kind
                || player.start_field_kind != fresh.start_field_kind || player.safehouse_kind
                != fresh.safehouse_kind || player.start_pos.0 != fresh.start_pos.0
                || player.start_pos.1 != fresh.start_pos.1 {
                assert(!(self@.players[p as int].id == p
                    && self@.players[p as int].has_layout_of_color()));
                return false;
            }
            let mut k: usize = 0;
            while k < 4
                invariant
                    k <= 4,
                    p < self.players.len(),
                    player == self@.players[p as int],
                    fresh.has_layout_of_color(),
                    fresh.pawn_color == player.pawn_color,
                    forall|j: int| 0 <= j < k ==> #[trigger] player.home_pos[j] == fresh.home_pos[j],
                    forall|j: int|
                        0 <= j < k ==> #[trigger] player.safehouse_pos[j] == fresh.safehouse_pos[j],
                    forall|j: int| 0 <= j < k ==> #[trigger] player.owns_pawn(j),
                decreases 4 - k,
            {
                if player.home_pos[k].0 != fresh.home_pos[k].0 || player.home_pos[k].1
                    != fresh.home_pos[k].1 || player.safehouse_pos[k].0 != fresh.safehouse_pos[k].0
                    || player.safehouse_pos[k].1 != fresh.safehouse_pos[k].1 || player.pawns[k].id
                    != k || player.pawns[k].player_id != player.id || player.pawns[k].color
                    != player.pawn_color {
                    assert(!(player.has_layout_of_color() && player.owns_pawn(k as int))) by {
                        let _ = fresh.home_pos[k as int];
                        let _ = fresh.safehouse_pos[k as int];
                    }
                    return false;
                }
                assert(player.home_pos[k as int] == fresh.home_pos[k as int]);
                assert(player.safehouse_pos[k as int] == fresh.safehouse_pos[k as int]);
                assert(player.owns_pawn(k as int));
                k += 1;
            }
            assert(player.has_layout_of_color()) by {
                assert forall|j: int| 0 <= j < 4 implies #[trigger] player.home_pos[j]
                    == crate::entities::player::home_cell(player.pawn_color, j) by {
                    let _ = fresh.home_pos[j];
                }
                assert forall|j: int| 0 <= j < 4 implies #[trigger] player.safehouse_pos[j]
                    == crate::entities::player::safehouse_cell(player.pawn_color, j) by {
                    let _ = fresh.safehouse_pos[j];
                }
            }
            let mut q: usize = 0;
            while q < p
                invariant
                    q <= p,
                    p < self.players.len(),
                    player == self@.players[p as int],
                    forall|r: int|
                        0 <= r < q ==> (#[trigger] self@.players[r]).pawn_color
                            != player.pawn_color,
                decreases p - q,
            {
                if self.players[q].pawn_color == player.pawn_color {
                    return false;
                }
                q += 1;
            }
            p += 1;
        }
        true
    }

    /// Whether every cell has the kind of the fixed layout and knows its own coordinates.
    fn check_board(&self) -> (ok: bool)
        ensures
            ok == self@.board_wf(),
    {
        let empty = initialize_board();
        let mut i: usize = 0;
        while i < 13
            invariant
                i <= 13,
                forall|a: int, b: int|
                    0 <= a < 13 && 0 <= b < 13 ==> #[trigger] empty[a][b]
                        == crate::entities::board::layout_field(a, b),
                forall|pos: (usize, usize)|
                    in_grid(pos) && pos.0 < i ==> {
                        &&& (#[trigger] self@.cell(pos)).kind == layout_kind(
                            pos.0 as int,
                            pos.1 as int,
                        )
                        &&& self@.cell(pos).position == pos
                        &&& self@.cell(pos).is_visible == (self@.cell(pos).kind != FieldKind::Gap)
                    },
            decreases 13 - i,
        {
            let mut j: usize = 0;
            while j < 13
                invariant
                    i < 13,
                    j <= 13,
                    forall|a: int, b: int|
                        0 <= a < 13 && 0 <= b < 13 ==> #[trigger] empty[a][b]
                            == crate::entities::board::layout_field(a, b),
                    forall|pos: (usize, usize)|
                        in_grid(pos) && (pos.0 < i || (pos.0 == i && pos.1 < j)) ==> {
                            &&& (#[trigger] self@.cell(pos)).kind == layout_kind(
                                pos.0 as int,
                                pos.1 as int,
                            )
                            &&& self@.cell(pos).position == pos
                            &&& self@.cell(pos).is_visible == (self@.cell(pos).kind
                                != FieldKind::Gap)
                        },
                decreases 13 - j,
            {
                let f: Field = self.board[i][j];
                let _ = empty[i][j];
                assert(empty[i as int][j as int].kind == layout_kind(i as int, j as int));
                if f.kind != empty[i][j].kind || f.position.0 != i || f.position.1 != j
                    || f.is_visible != (f.kind != FieldKind::Gap) {
                    assert(!self@.board_wf()) by {
                        let _ = self@.cell((i, j));
                    }
                    return false;
                }
                j += 1;
            }
            i += 1;
        }
        true
    }

    /// Whether the board and the players agree on every pawn.
    fn check_lockstep(&self) -> (ok: bool)
        requires
            self@.roster_wf(),
            self@.board_wf(),
        ensures
            ok == self@.in_lockstep(),
    {
        let mut p: usize = 0;
        while p < self.players.len()
            invariant
                p <= self.players.len(),
                self@.board_wf(),
                forall|q: int, k: int|
                    0 <= q < p && 0 <= k < 4 ==> {
                        &&& in_grid((#[trigger] self@.pawn(q, k)).position)
                        &&& self@.cell(self@.pawn(q, k).position).pawn == Some(self@.pawn(q, k))
                        &&& (self@.players[q].pawn_at_home(k) || !layout_kind(
                            self@.pawn(q, k).position.0 as int,
                            self@.pawn(q, k).position.1 as int,
                        ).is_home())
                    },
            decreases self.players.len() - p,
        {
            let mut k: usize = 0;
            while k < 4
                invariant
                    k <= 4,
                    p < self.players.len(),
                    self@.board_wf(),
                    forall|q: int, j: int|
                        (0 <= q < p && 0 <= j < 4) || (q == p && 0 <= j < k) ==> {
                            &&& in_grid((#[trigger] self@.pawn(q, j)).position)
                            &&& self@.cell(self@.pawn(q, j).position).pawn == Some(
                                self@.pawn(q, j),
                            )
                            &&& (self@.players[q].pawn_at_home(j) || !layout_kind(
                                self@.pawn(q, j).position.0 as int,
                                self@.pawn(q, j).position.1 as int,
                            ).is_home())
                        },
                decreases 4 - k,
            {
                let pawn: Pawn = self.players[p].pawns[k];
                let home: (usize, usize) = self.players[p].home_pos[k];
                let ghost witness = self@.pawn(p as int, k as int);
                if pawn.position.0 >= 13 || pawn.position.1 >= 13 {
                    return false;
                }
                let f: Field = self.board[pawn.position.0][pawn.position.1];
                assert(f == self@.cell(pawn.position));
                assert(f.kind == layout_kind(pawn.position.0 as int, pawn.position.1 as int));
                let stands: bool = match f.pawn {
                    Some(on_board) => same_pawn(&on_board, &pawn),
                    None => false,
                };
                let at_home: bool = pawn.position.0 == home.0 && pawn.position.1 == home.1;
                if !stands || !(at_home || !is_home_kind(f.kind)) {
                    return false;
                }
                k += 1;
            }
            p += 1;
        }
        let mut i: usize = 0;
        while i < 13
            invariant
                i <= 13,
                forall|pos: (usize, usize)|
                    in_grid(pos) && pos.0 < i ==> ((#[trigger] self@.occupant(
                        pos,
                    )) matches Some(pw) ==> {
                        &&& pw.player_id < self@.players.len()
                        &&& pw.id < 4
                        &&& self@.pawn(pw.player_id as int, pw.id as int) == pw
                        &&& pw.position == pos
                    }),
            decreases 13 - i,
        {
            let mut j: usize = 0;
            while j < 13
                invariant
                    i < 13,
                    j <= 13,
                    forall|pos: (usize, usize)|
                        in_grid(pos) && (pos.0 < i || (pos.0 == i && pos.1 < j)) ==> ((
                        #[trigger] self@.occupant(pos)) matches Some(pw) ==> {
                            &&& pw.player_id < self@.players.len()
                            &&& pw.id < 4
                            &&& self@.pawn(pw.player_id as int, pw.id as int) == pw
                            &&& pw.position == pos
                        }),
                decreases 13 - j,
            {
                let ghost here = self@.occupant((i, j));
                if let Some(pw) = self.board[i][j].pawn {
                    if pw.player_id >= self.players.len() || pw.id >= 4 || pw.position.0 != i
                        || pw.position.1 != j {
                        return false;
                    }
                    if !same_pawn(&self.players[pw.player_id].pawns[pw.id], &pw) {
                        return false;
                    }
                }
                j += 1;
            }
            i += 1;
        }
        true
    }

    /// Whether each player's count of pawns on the board is the number of its pawns that
    /// are away from their resting cells.
    fn check_counts(&self) -> (ok: bool)
        ensures
            ok == self@.counts_match(),
    {
        let mut p: usize = 0;
        while p < self.players.len()
            invariant
                p <= self.players.len(),
                forall|q: int|
                    0 <= q < p ==> (#[trigger] self@.players[q]).pawns_on_board == away_count(
                        self@.players[q],
                    ),
            decreases self.players.len() - p,
        {
            let player: Player = self.players[p];
            let mut away: usize = 0;
            let mut k: usize = 0;
            while k < 4
                invariant
                    k <= 4,
                    away <= k,
                    away == (if k > 0 && !player.pawn_at_home(0) { 1int } else { 0 }) + (if k > 1
                        && !player.pawn_at_home(1) { 1int } else { 0 }) + (if k > 2
                        && !player.pawn_at_home(2) { 1int } else { 0 }) + (if k > 3
                        && !player.pawn_at_home(3) { 1int } else { 0 }),
                decreases 4 - k,
            {
                if player.pawns[k].position.0 != player.home_pos[k].0
                    || player.pawns[k].position.1 != player.home_pos[k].1 {
                    away += 1;
                }
                k += 1;
            }
            if player.pawns_on_board != away {
                return false;
            }
            p += 1;
        }
        true
    }

    /// Whether every slot of the path map is one of the forty-four of a path.
    fn check_slots(&self) -> (ok: bool)
        ensures
            ok == super::screen::slots_bounded(self@.path_map),
    {
        for key in it: self.path_map.keys()
            invariant
                it.seq().unref().to_set() == self.path_map@.dom(),
                forall|i: int| 0 <= i < it.index() ==> *(#[trigger] it.seq()[i]) < 44,
        {
            if *key >= 44 {
                assert(it.seq().unref().to_set().contains(*key)) by {
                    assert(it.seq().unref()[it.index()] == *key);
                }
                return false;
            }
        }
        true
    }

    /// Whether the path map holds the ring, turned into the current frame, and then the
    /// current player's final cells.
    fn check_path(&self) -> (ok: bool)
        requires
            1 <= self.players.len(),
            self.curr_player.id < self.players.len(),
        ensures
            ok == self@.path_wf(),
    {
        if !self.check_slots() {
            return false;
        }
        let first: PawnColor = self.players[0].pawn_color;
        let current: Player = self.players[self.curr_player.id];
        let delta: isize = current.pawn_color - first;
        let frame: usize = ((delta + 4) as usize) % 4;
        assert(frame == self@.frame());
        let ring = get_path_map();
        let ghost wanted = path_in_frame(self@.frame(), current.safehouse_pos);
        let mut k: usize = 0;
        while k < 44
            invariant
                k <= 44,
                frame < 4,
                frame == self@.frame(),
                ring@ == crate::entities::board::ring_map(),
                current == self@.current(),
                wanted == path_in_frame(self@.frame(), current.safehouse_pos),
                forall|q: usize|
                    q < k ==> #[trigger] self.path_map@.contains_key(q) && self.path_map@[q]
                        == wanted[q],
            decreases 44 - k,
        {
            let expected: (usize, usize) = if k < 40 {
                let slot: usize = (k + 10 * frame) % 40;
                match ring.get(&slot) {
                    Some(cell) => *cell,
                    None => (0, 0),
                }
            } else {
                current.safehouse_pos[k - 40]
            };
            assert(expected == wanted[k]);
            match self.path_map.get(&k) {
                Some(cell) => {
                    if cell.0 != expected.0 || cell.1 != expected.1 {
                        assert(self.path_map@[k] != wanted[k]);
                        return false;
                    }
                    assert(self.path_map@.contains_key(k) && self.path_map@[k] == wanted[k]);
                },
                None => {
                    assert(wanted.contains_key(k));
                    return false;
                },
            }
            assert forall|q: usize| q < k + 1 implies #[trigger] self.path_map@.contains_key(q)
                && self.path_map@[q] == wanted[q] by {
                if q == k {
                    assert(self.path_map@.contains_key(k) && self.path_map@[k] == wanted[k]);
                }
            }
            k += 1;
        }
        assert(self.path_map@ =~= wanted);
        true
    }

    /// Whether the cursor names a player and, if any, one of the four pawns, the turn
    /// waits with no pawn picked until the dice are rolled, and the hover rests on the cell
    /// of its slot.
    fn check_cursor(&self) -> (ok: bool)
        ensures
            ok == (self@.cursor_wf() && self@.hover_wf()),
    {
        if self.curr_player.id >= self.players.len() {
            return false;
        }
        let selected_ok: bool = match self.curr_player.selected_pawn_id {
            Some(k) => k < 4,
            None => self.curr_player.player_action != PlayerAction::Hovering,
        };
        let rolled_ok: bool = match self.curr_player.roll {
            Some(_) => true,
            None => self.curr_player.selected_pawn_id.is_none() && self.curr_player.player_action
                == PlayerAction::WaitingRoll,
        };
        let hover = self.curr_player.curr_hover_position;
        let flat = self.curr_player.curr_hover_flat;
        if !selected_ok || !rolled_ok || hover.0 >= 13 || hover.1 >= 13 || flat >= 44 {
            return false;
        }
        match self.path_map.get(&flat) {
            Some(cell) => cell.0 == hover.0 && cell.1 == hover.1,
            None => false,
        }
    }

    /// Whether the match is in a state that play can reach.
    pub fn is_reachable(&self) -> (ok: bool)
        ensures
            ok == self@.wf(),
    {
        self.check_roster() && self.check_board() && self.check_lockstep() && self.check_counts()
            && self.check_cursor() && self.check_path()
    }

    /// Builds the match that `saved` describes, with the pause menu opened afresh on the
    /// saves now on disk and the path map worked out from the players and the cursor.
    /// Gives nothing where what is described is no state that play can reach.
    pub fn restore(saved: Snapshot, save_files: &Vec<FileInfo>) -> (restored: Option<GameMainScreen>)
        ensures
            restored is None <==> !saved.as_match().wf(),
            restored matches Some(game) ==> {
                &&& game@ == (GameView { pause_menu: game.pause_menu, ..saved.as_match() })
                &&& game@.wf()
                &&& game.pause_menu.wf()
                &&& game.pause_menu.is_opening(save_files@)
            },
    {
        if saved.players.len() < 1 || saved.curr_player.id >= saved.players.len() {
            return None;
        }
        let first: PawnColor = saved.players[0].pawn_color;
        let current: Player = saved.players[saved.curr_player.id];
        let ring = get_path_map();
        let path_map = path_of_next(&ring, first, &current, Ghost(0));
        let game = GameMainScreen {
            players: saved.players,
            state: GameState::RUNNING,
            curr_player: saved.curr_player,
            is_game_finished: saved.is_game_finished,
            board: saved.board,
            path_map,
            message: saved.message,
            should_normalize_movement: saved.should_normalize_movement,
            playing_colors: saved.playing_colors,
            game_winner: saved.game_winner,
            pause_menu: PauseMenu::new(save_files),
        };
        let ghost wanted = saved.as_match();
        proof {
            assert(game@.frame() == (0 + current.pawn_color.spec_ordinal() - first.spec_ordinal())
                % 4);
            assert(game@.path_map =~= path_in_frame(game@.frame(), current.safehouse_pos));
            assert(game@.path_wf());
            assert(game@ == (GameView { pause_menu: game.pause_menu, ..wanted }));
            assert(wanted.wf() == game@.wf()) by {
                if game@.wf() {
                    lemma_wf_but_state_and_menu(game@, wanted);
                }
                if wanted.wf() {
                    lemma_wf_but_state_and_menu(wanted, game@);
                }
            }
        }
        if !game.check_roster() || !game.check_board() || !game.check_lockstep()
            || !game.check_counts() || !game.check_cursor() {
            return None;
        }
        Some(game)
    }
}

/// Whether a state can be reached depends neither on the pause menu nor on whether the
/// match runs.
pub proof fn lemma_wf_but_state_and_menu(s: GameView, t: GameView)
    requires
        s.wf(),
        t == (GameView { pause_menu: t.pause_menu, state: t.state, ..s }),
    ensures
        t.wf(),
{
    super::screen::lemma_pieces_carry(s, t);
    assert(t.frame() == s.frame());
}

} // verus!
