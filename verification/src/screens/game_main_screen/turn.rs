//! Passing the turn: the cursor starts afresh and the path is renumbered for the
//! frame of the player who comes next.

use std::collections::BTreeMap;
use vstd::prelude::*;

use super::current_player::CurrentPlayer;
use super::screen::in_grid;
use super::screen::lemma_some_least_slot;
use super::screen::path_in_frame;
use super::screen::slot_of;
use super::screen::GameMainScreen;
use super::screen::GameView;
use crate::entities::board::extend_safehouses;
use crate::entities::board::is_rotation_of;
use crate::entities::board::reorder_path_map;
use crate::entities::board::ring_pos;
use crate::entities::board::rotated_slot;
use crate::entities::pawn::PawnColor;
use crate::entities::player::start_cell;
use crate::entities::player::Player;

verus! {

/// The entry cell of a colour is the ring slot ten times the colour's place round the board.
pub proof fn lemma_start_on_ring(color: PawnColor)
    ensures
        start_cell(color) == ring_pos(10 * color.spec_ordinal()),
{
}

/// The slot that is renumbered to `n`, and the ring cell that it held, where the offset
/// and the number of turns are given.
proof fn lemma_turned_slot_at(n: int, f: int, offset: int, turns: int)
    requires
        0 <= n < 40,
        0 <= f < 4,
        0 <= offset < 4,
        0 <= turns < 4,
        (turns - f + offset) % 4 == 0,
    ensures
        ({
            let k = (n + 10 * (4 - offset)) % 40;
            &&& 0 <= k < 40
            &&& rotated_slot(k, offset) == n
            &&& (k + 10 * f) % 40 == (n + 10 * turns) % 40
        }),
{
    let x = n + 10 * (4 - offset);
    let k = x % 40;
    assert(k == x || k == x - 40);
    let y = k + 10 * offset;
    assert(y % 40 == y || y % 40 == y - 40);
    let d = turns - f + offset;
    assert(d == 0 || d == 4 || d == -4);
    let z = k + 10 * f;
    assert(z % 40 == z || z % 40 == z - 40);
    let w = n + 10 * turns;
    assert(w % 40 == w || w % 40 == w - 40);
}

/// The slot that is renumbered to `n`, and the ring cell that it held.
proof fn lemma_turned_slot(n: int, f: int, delta: int)
    requires
        0 <= n < 40,
        0 <= f < 4,
        -3 <= delta <= 3,
    ensures
        ({
            let offset = (4 - delta) % 4;
            let k = (n + 10 * (4 - offset)) % 40;
            &&& 0 <= k < 40
            &&& rotated_slot(k, offset) == n
            &&& (k + 10 * f) % 40 == (n + 10 * ((f + delta) % 4)) % 40
        }),
{
    let offset = (4 - delta) % 4;
    let turns = (f + delta) % 4;
    assert(offset == 4 - delta || offset == -delta || offset == 8 - delta);
    assert(turns == f + delta || turns == f + delta - 4 || turns == f + delta + 4);
    lemma_turned_slot_at(n, f, offset, turns);
}

/// Renumbering the ring of a frame turned `f` times, for a player `delta` colours further
/// on, gives the ring of the frame turned `f + delta` times: the offset is what brings that
/// player's stretch of the ring to the front.
pub proof fn lemma_rotated_ring(
    before: Map<usize, (usize, usize)>,
    after: Map<usize, (usize, usize)>,
    f: int,
    delta: int,
    offset: int,
)
    requires
        0 <= f < 4,
        -3 <= delta <= 3,
        offset == (4 - delta) % 4,
        forall|k: usize| before.contains_key(k) <==> k < 40,
        forall|k: usize| k < 40 ==> before[k] == ring_pos((k + 10 * f) % 40),
        is_rotation_of(after, before, offset),
    ensures
        forall|n: usize| after.contains_key(n) <==> n < 40,
        forall|n: usize| n < 40 ==> after[n] == ring_pos((n + 10 * ((f + delta) % 4)) % 40),
{
    assert forall|n: usize| n < 40 implies #[trigger] after.contains_key(n) by {
        lemma_turned_slot(n as int, f, delta);
        let k = ((n + 10 * (4 - offset)) % 40) as usize;
        assert(before.contains_key(k));
    }
    assert forall|n: usize| n < 40 implies #[trigger] after[n] == ring_pos(
        (n + 10 * ((f + delta) % 4)) % 40,
    ) by {
        lemma_turned_slot(n as int, f, delta);
        let k = ((n + 10 * (4 - offset)) % 40) as usize;
        assert(before.contains_key(k));
    }
    assert forall|n: usize| after.contains_key(n) implies n < 40 by {
        let k = choose|k: usize| #[trigger]
            before.contains_key(k) && rotated_slot(k as int, offset) == n;
        assert(before.contains_key(k) && rotated_slot(k as int, offset) == n);
        assert(0 <= offset < 4);
        assert(rotated_slot(k as int, offset) < 40);
    }
}

/// In every frame the path leads to the entry cell of every colour.
pub proof fn lemma_start_has_slot(turns: int, safehouse: [(usize, usize); 4], color: PawnColor)
    requires
        0 <= turns < 4,
    ensures
        slot_of(path_in_frame(turns, safehouse), start_cell(color)) is Some,
{
    let k = ((10 * color.spec_ordinal() + 40 - 10 * turns) % 40) as usize;
    lemma_start_on_ring(color);
    assert((k + 10 * turns) % 40 == 10 * color.spec_ordinal());
    let m = path_in_frame(turns, safehouse);
    assert(m.contains_key(k) && m[k] == start_cell(color));
    lemma_some_least_slot(m, start_cell(color), k);
}

/// The path map for `incoming`, from the ring of a frame turned `f` times in which
/// `leaving` was to move: the ring is turned by the offset that brings the stretch of
/// `incoming` to the front, and the final cells of `incoming` follow it.
pub(crate) fn path_of_next(
    ring: &BTreeMap<usize, (usize, usize)>,
    leaving: PawnColor,
    incoming: &Player,
    Ghost(f): Ghost<int>,
) -> (path: BTreeMap<usize, (usize, usize)>)
    requires
        0 <= f < 4,
        forall|k: usize| ring@.contains_key(k) <==> k < 40,
        forall|k: usize| k < 40 ==> ring@[k] == ring_pos((k + 10 * f) % 40),
    ensures
        path@ == path_in_frame(
            (f + incoming.pawn_color.spec_ordinal() - leaving.spec_ordinal()) % 4,
            incoming.safehouse_pos,
        ),
{
    let delta: isize = incoming.pawn_color - leaving;
    let offset: usize = ((4 - delta) as usize) % 4;
    let turned = reorder_path_map(ring, offset);
    proof {
        lemma_rotated_ring(ring@, turned@, f, delta as int, offset as int);
    }
    let path = extend_safehouses(&turned, incoming.safehouse_pos);
    assert(path@ =~= path_in_frame((f + delta) % 4, incoming.safehouse_pos));
    path
}

impl GameMainScreen {
    /// Passes the turn to the next player in seating order.
    pub fn next_player(&mut self)
        requires
            old(self)@.wf(),
        ensures
            final(self)@ == old(self)@.next_turn(),
            final(self)@.wf(),
    {
        let ghost s = old(self)@;
        assert(self.curr_player.id < self.players.len());
        let player: Player = self.players[self.curr_player.id];

        self.curr_player.id = (self.curr_player.id + 1) % self.players.len();
        self.message = String::from_str("Press SPACE to roll!");
        self.curr_player = CurrentPlayer::next(&self.curr_player, self.players[self.curr_player.id]);
        let incoming: Player = self.players[self.curr_player.id];

        self.path_map.remove(&40);
        self.path_map.remove(&41);
        self.path_map.remove(&42);
        self.path_map.remove(&43);
        let ghost ring = self.path_map@;
        assert(forall|k: usize| ring.contains_key(k) <==> k < 40);
        assert(forall|k: usize| k < 40 ==> ring[k] == ring_pos((k + 10 * s.frame()) % 40));

        self.path_map = path_of_next(&self.path_map, player.pawn_color, &incoming, Ghost(s.frame()));

        let ghost passed = GameView {
            curr_player: CurrentPlayer {
                id: ((s.curr_player.id + 1) % (s.players.len() as int)) as usize,
                ..s.curr_player.restarted()
            },
            message: "Press SPACE to roll!"@,
            ..s
        };
        let ghost turned = GameView {
            path_map: path_in_frame(passed.frame(), passed.current().safehouse_pos),
            ..passed
        };
        proof {
            assert(passed.frame() == (s.frame() + incoming.pawn_color.spec_ordinal()
                - player.pawn_color.spec_ordinal()) % 4);
            assert(self@.path_map =~= turned.path_map);
            assert(self@ == turned);
            assert(incoming.has_layout_of_color());
            crate::screens::game_main_screen::lockstep::lemma_home_cells(
                incoming.pawn_color,
                0,
                incoming.pawn_color,
                0,
            );
            assert(in_grid(incoming.start_pos));
            lemma_start_has_slot(passed.frame(), incoming.safehouse_pos, incoming.pawn_color);
            assert(turned.settled()) by {
                super::screen::lemma_pieces_carry(s, turned);
                assert(turned.frame() == passed.frame());
                assert(turned.path_wf());
                super::screen::lemma_path_cell(s, s.curr_player.curr_hover_flat);
                assert(turned.cursor_wf());
            }
        }
        self.set_hover(incoming.start_pos);
    }
}

} // verus!
