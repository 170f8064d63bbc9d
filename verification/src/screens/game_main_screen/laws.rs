//! What holds of every match, stated over the functions that say what the moves do.

use vstd::prelude::*;

use super::lockstep::lemma_capture_wf;
use super::lockstep::lemma_home_is_free;
use super::lockstep::lemma_move_wf;
use super::lockstep::lemma_relocated_effect;
use super::lockstep::lemma_with_pawn;
use super::lockstep::lemma_written;
use super::move_type::BadMoveType;
use super::move_type::GoodMoveType;
use super::screen::away_count;
use super::screen::in_grid;
use super::screen::lemma_path_cell;
use super::screen::lemma_slot_of;
use super::screen::slot_of;
use super::screen::spec_field_diff;
use super::screen::vacated;
use super::screen::GameView;
use super::screen::PlayerAction;
use crate::entities::board::layout_kind;
use crate::entities::field::Field;
use crate::entities::pawn::Pawn;
use crate::entities::player::Player;
use crate::event::KeyInput;

verus! {

/// The board and the players never drift apart: in a reachable state the cell that a
/// pawn's position names holds that very pawn, position included.
pub proof fn lemma_no_drift(s: GameView, p: int, k: int)
    requires
        s.wf(),
        0 <= p < s.players.len(),
        0 <= k < 4,
    ensures
        in_grid(s.pawn(p, k).position),
        s.cell(s.pawn(p, k).position).pawn == Some(s.pawn(p, k)),
        s.cell(s.pawn(p, k).position).pawn->0.position == s.pawn(p, k).position,
{
}

/// In a reachable state a pawn on the board is the pawn that its owner holds under the
/// same index, and it stands where its position says.
pub proof fn lemma_board_pawn_is_owned(s: GameView, pos: (usize, usize))
    requires
        s.wf(),
        in_grid(pos),
        s.cell(pos).pawn is Some,
    ensures
        s.cell(pos).pawn->0.player_id < s.players.len(),
        s.cell(pos).pawn->0.id < 4,
        s.pawn(s.cell(pos).pawn->0.player_id as int, s.cell(pos).pawn->0.id as int) == s.cell(
            pos,
        ).pawn->0,
        s.cell(pos).pawn->0.position == pos,
{
    let _ = s.occupant(pos);
}

/// In a reachable state each player's count of pawns on the board is the number of its
/// pawns that are away from their resting cells; it is never more than four.
pub proof fn lemma_count_is_pawns_away(s: GameView, p: int)
    requires
        s.wf(),
        0 <= p < s.players.len(),
    ensures
        s.players[p].pawns_on_board == away_count(s.players[p]),
        s.players[p].pawns_on_board <= 4,
{
}

/// A capture takes one from the count of the captured pawn's owner and changes no other
/// count; the captured pawn stands on its resting cell afterwards.
pub proof fn lemma_capture_counts(s: GameView, f: Field, q: int)
    requires
        s.wf(),
        in_grid(f.position),
        f == s.cell(f.position),
        f.pawn matches Some(lp) && !s.players[lp.player_id as int].pawn_at_home(lp.id as int),
        0 <= q < s.players.len(),
    ensures
        s.captured(f).players[q].pawns_on_board == s.players[q].pawns_on_board - (if q
            == f.pawn->0.player_id {
            1int
        } else {
            0
        }),
        s.captured(f).players[f.pawn->0.player_id as int].pawn_at_home(f.pawn->0.id as int),
        s.captured(f).pawn(f.pawn->0.player_id as int, f.pawn->0.id as int) == (Pawn {
            position: s.players[f.pawn->0.player_id as int].home_pos[f.pawn->0.id as int],
            ..f.pawn->0
        }),
{
    let lp = f.pawn->0;
    let p = lp.player_id as int;
    let k = lp.id as int;
    assert(s.occupant(f.position) == Some(lp));
    lemma_capture_wf(s, f);
    lemma_home_is_free(s, p, k);
    let owner = s.players[p];
    let h = owner.home_pos[k];
    let sent = Pawn { position: h, ..lp };
    let counted = GameView {
        players: s.players.update(
            p,
            Player { pawns_on_board: (owner.pawns_on_board - 1) as usize, ..owner },
        ),
        ..s
    };
    let home_field = Field { pawn: Some(sent), ..s.cell(h) };
    let w1 = counted.written(home_field);
    assert(s.cell(h).position == h);
    lemma_written(counted, home_field);
    lemma_written(w1, vacated(f));
    let _ = w1.players[q];
    let _ = counted.players[q];
    let _ = w1.players[p];
    let _ = counted.players[p];
    lemma_with_pawn(owner, sent, k);
}

/// A pawn that is moved to a free cell, whichever it is, stands there afterwards, on the
/// board and in its owner's array alike, the same pawn but for its position; the cell
/// that it left is empty. No other pawn moves, and no count changes but that of the
/// mover's owner, by one, where the pawn leaves its resting cell.
pub proof fn lemma_move_to_free_cell(s: GameView, f: Field, target: (usize, usize))
    requires
        s.wf(),
        in_grid(f.position),
        f == s.cell(f.position),
        f.pawn is Some,
        in_grid(target),
        s.cell(target).pawn is None,
    ensures
        ({
            let t = s.moved(f, target);
            let sp = f.pawn->0;
            let set_down = Pawn { position: target, ..sp };
            &&& s.move_outcome(f, target) == Ok::<GoodMoveType, BadMoveType>(GoodMoveType::Move)
            &&& sp.player_id < s.players.len()
            &&& sp.id < 4
            &&& t.players.len() == s.players.len()
            &&& t.cell(target).pawn == Some(set_down)
            &&& t.cell(target).position == target
            &&& t.pawn(sp.player_id as int, sp.id as int) == set_down
            &&& t.cell(f.position).pawn is None
            &&& forall|p: int, k: int|
                0 <= p < s.players.len() && 0 <= k < 4 && !(p == sp.player_id && k == sp.id)
                    ==> #[trigger] t.pawn(p, k) == s.pawn(p, k)
            &&& forall|p: int|
                0 <= p < s.players.len() ==> (#[trigger] t.players[p]).pawns_on_board
                    == s.players[p].pawns_on_board + (if p == sp.player_id && s.leaves_home(f) {
                    1int
                } else {
                    0
                })
        }),
{
    let t = s.moved(f, target);
    let sp = f.pawn->0;
    let set_down = Pawn { position: target, ..sp };
    lemma_relocated_effect(s, f, target);
    assert(t == s.relocated(f, target));
    let _ = t.cell(target);
    let _ = t.cell(f.position);
    let _ = s.cell(target);
    assert(f.position != target);
    assert forall|p: int, k: int|
        0 <= p < s.players.len() && 0 <= k < 4 implies #[trigger] t.pawn(p, k) == (if p
        == sp.player_id && k == sp.id {
        set_down
    } else {
        s.pawn(p, k)
    }) by {
        let _ = t.players[p];
        lemma_with_pawn(s.players[p], set_down, k);
    }
    assert forall|p: int| 0 <= p < s.players.len() implies (#[trigger] t.players[p]).pawns_on_board
        == s.players[p].pawns_on_board + (if p == sp.player_id && s.leaves_home(f) {
        1int
    } else {
        0
    }) by {}
}

/// A move adds one to the count of the mover's owner exactly where the pawn leaves its
/// resting cell, takes one from the count of the owner of a captured pawn, and changes
/// no other count.
pub proof fn lemma_move_counts(s: GameView, f: Field, target: (usize, usize), q: int)
    requires
        s.wf(),
        in_grid(f.position),
        f == s.cell(f.position),
        f.pawn is Some,
        in_grid(target),
        s.can_take(f, target),
        0 <= q < s.players.len(),
    ensures
        s.moved(f, target).players[q].pawns_on_board == s.players[q].pawns_on_board + (if q
            == f.pawn->0.player_id && s.leaves_home(f) {
            1int
        } else {
            0
        }) - (if s.captures(f, target) && q == s.cell(target).pawn->0.player_id {
            1int
        } else {
            0
        }),
        s.leaves_home(f) <==> s.players[f.pawn->0.player_id as int].pawn_at_home(
            f.pawn->0.id as int,
        ),
{
    lemma_move_wf(s, f, target);
    assert(s.occupant(f.position) == f.pawn);
    if s.captures(f, target) {
        let victim = s.cell(target);
        assert(s.occupant(target) == victim.pawn);
        assert(victim.position == target);
        lemma_capture_counts(s, victim, q);
        lemma_capture_counts(s, victim, f.pawn->0.player_id as int);
        let s1 = s.captured(victim);
        lemma_relocated_effect(s1, f, target);
        let _ = s1.relocated(f, target).players[q];
        assert(s1.leaves_home(f) == s.leaves_home(f)) by {
            lemma_capture_wf(s, victim);
        }
    } else {
        lemma_relocated_effect(s, f, target);
        let _ = s.relocated(f, target).players[q];
    }
}

/// A pawn that is moved onto a pawn of another colour sends that pawn back to its own
/// resting cell and takes one from the count of that pawn's owner.
pub proof fn lemma_capture_sends_home(s: GameView, f: Field, target: (usize, usize))
    requires
        s.wf(),
        in_grid(f.position),
        f == s.cell(f.position),
        f.pawn is Some,
        in_grid(target),
        !layout_kind(target.0 as int, target.1 as int).is_home(),
        s.captures(f, target),
    ensures
        ({
            let hp = s.cell(target).pawn->0;
            let owner = hp.player_id as int;
            &&& 0 <= owner < s.players.len()
            &&& hp.id < 4
            &&& owner != f.pawn->0.player_id
            &&& s.moved(f, target).pawn(owner, hp.id as int).position
                == s.players[owner].home_pos[hp.id as int]
            &&& s.moved(f, target).players[owner].pawns_on_board
                == s.players[owner].pawns_on_board - 1
            &&& s.moved(f, target).cell(target).pawn == Some(
                Pawn { position: target, ..f.pawn->0 },
            )
            &&& s.moved(f, target).move_outcome(f, target) is Ok
            &&& s.move_outcome(f, target) == Ok::<GoodMoveType, BadMoveType>(GoodMoveType::EatMove)
        }),
{
    let victim = s.cell(target);
    let hp = victim.pawn->0;
    let owner = hp.player_id as int;
    assert(s.occupant(target) == Some(hp));
    assert(s.occupant(f.position) == f.pawn);
    assert(s.players[owner].owns_pawn(hp.id as int));
    assert(s.players[f.pawn->0.player_id as int].owns_pawn(f.pawn->0.id as int));
    lemma_move_wf(s, f, target);
    lemma_move_counts(s, f, target, owner);
    assert(victim.position == target);
    lemma_capture_counts(s, victim, owner);
    let s1 = s.captured(victim);
    lemma_capture_wf(s, victim);
    lemma_relocated_effect(s1, f, target);
    let t = s1.relocated(f, target);
    let _ = t.players[owner];
    let _ = t.cell(target);
}

/// A second roll in the same turn changes nothing: once the dice have been rolled, the
/// roll stands until the turn is over.
pub proof fn lemma_roll_is_idempotent(s: GameView, first: usize, second: usize)
    ensures
        s.rolled(first).rolled(second) == s.rolled(first),
        s.rolled(first).curr_player.roll is Some,
        s.curr_player.roll is None ==> s.rolled(first).curr_player.roll == Some(first),
{
}

/// The first roll of a turn is kept. With no pawn out and no six the turn goes straight
/// to its end: no pawn is picked and the player is told that nothing can move. In every
/// other case a pawn is to be chosen. The players and the board stay as they are.
pub proof fn lemma_roll_without_a_move(s: GameView, roll: usize)
    requires
        s.wf(),
        s.curr_player.roll is None,
    ensures
        s.rolled(roll).curr_player.roll == Some(roll),
        s.rolled(roll).curr_player.selected_pawn_id is None,
        s.rolled(roll).curr_player.player_action == (if roll != 6 && s.current().pawns_on_board
            == 0 {
            PlayerAction::Playing
        } else {
            PlayerAction::Selecting
        }),
        roll != 6 && s.current().pawns_on_board == 0 ==> s.rolled(roll).message
            == super::event_handler::stuck_text(roll),
        s.rolled(roll).players == s.players,
        s.rolled(roll).board == s.board,
        s.rolled(roll).curr_player.id == s.curr_player.id,
{
}

/// The distance from a slot to itself is nothing.
pub proof fn lemma_field_diff_same(slot: int)
    ensures
        spec_field_diff(slot, slot) == 0,
{
}

/// The distance to the slot that lies a roll ahead is the roll, as long as that slot is
/// still one of the forty-four of the path.
pub proof fn lemma_field_diff_ahead(from: int, roll: int)
    requires
        0 <= from,
        1 <= roll <= 6,
        from + roll < 44,
    ensures
        spec_field_diff((from + roll) % 44, from) == roll,
{
}

/// A pawn on the path may not go to a final cell that lies beyond the deepest occupied
/// one: the move is refused because it would skip a pawn.
pub proof fn lemma_no_skipping_in_safehouse(s: GameView, f: Field, j: int)
    requires
        s.laid_out(),
        f.pawn is Some,
        f.kind != s.current().home_field_kind,
        slot_of(s.path_map, f.pawn->0.position) is Some,
        0 <= j < 4,
        s.top_safehouse() matches Some(top) && top < j,
    ensures
        s.verdict(f, s.current().safehouse_pos[j]) == Err::<GoodMoveType, BadMoveType>(
            BadMoveType::CantSkipSafehousePawn,
        ),
{
    let me = s.current();
    let top = s.top_safehouse()->0;
    lemma_safehouse_slot(s, j);
    lemma_safehouse_slot(s, top);
}

/// A pawn on the path may go to any final cell while none of them is occupied, whatever
/// the roll.
pub proof fn lemma_empty_safehouse_is_open(s: GameView, f: Field, j: int)
    requires
        s.laid_out(),
        f.pawn is Some,
        f.kind != s.current().home_field_kind,
        slot_of(s.path_map, f.pawn->0.position) is Some,
        0 <= j < 4,
        s.top_safehouse() is None,
    ensures
        s.verdict(f, s.current().safehouse_pos[j]) == Ok::<GoodMoveType, BadMoveType>(
            GoodMoveType::Move,
        ),
{
    lemma_safehouse_slot(s, j);
}

/// The `j`-th final cell of the current player is a cell of that player's final kind and
/// is slot forty plus `j` of the path.
pub proof fn lemma_safehouse_slot(s: GameView, j: int)
    requires
        s.laid_out(),
        0 <= j < 4,
    ensures
        in_grid(s.current().safehouse_pos[j]),
        s.cell(s.current().safehouse_pos[j]).kind == s.current().safehouse_kind,
        slot_of(s.path_map, s.current().safehouse_pos[j]) == Some((40 + j) as usize),
{
    let me = s.current();
    let pos = me.safehouse_pos[j];
    let key = (40 + j) as usize;
    lemma_path_cell(s, key);
    assert(s.cell(pos).kind == layout_kind(pos.0 as int, pos.1 as int));
    assert(me.has_layout_of_color());
    assert forall|q: usize| q < key && s.path_map.contains_key(q) implies s.path_map[q]
        != pos by {
        lemma_path_cell(s, q);
        if q >= 40 {
            assert(me.safehouse_pos[q - 40] != me.safehouse_pos[j]);
        }
    }
    super::screen::lemma_slot_of_least(s.path_map, pos, key);
}

/// No pawn may be moved onto a pawn of its own colour.
pub proof fn lemma_own_pawn_blocks(s: GameView, f: Field, target: (usize, usize))
    requires
        s.laid_out(),
        in_grid(target),
        f.pawn is Some,
        f.pawn->0.color == s.current().pawn_color,
        s.cell(target).pawn matches Some(np) && np.color == f.pawn->0.color,
    ensures
        s.verdict(f, target) is Err,
        ({
            let from = slot_of(s.path_map, f.pawn->0.position);
            let to = slot_of(s.path_map, target);
            &&& f.kind != s.current().home_field_kind
            &&& from is Some
            &&& to is Some
            &&& s.curr_player.roll is Some
            &&& spec_field_diff(to->0 as int, from->0 as int) == s.curr_player.roll->0
            &&& s.cell(target).kind != s.current().safehouse_kind
        }) ==> s.verdict(f, target) == Err::<GoodMoveType, BadMoveType>(BadMoveType::CantEatOwnPawn),
{
    let me = s.current();
    let goal = s.cell(target);
    assert(me.has_layout_of_color());
    assert(goal.kind == layout_kind(target.0 as int, target.1 as int));
    if f.kind == me.home_field_kind {
        if goal.kind == me.start_field_kind {
            assert(target == me.start_pos);
        }
    } else if slot_of(s.path_map, f.pawn->0.position) is Some && slot_of(s.path_map, target) is Some {
        if goal.kind == me.safehouse_kind && s.top_safehouse() is None {
            lemma_slot_of(s.path_map, target);
            let to = slot_of(s.path_map, target)->0;
            lemma_path_cell(s, to);
            assert(to >= 40);
            assert(target == me.safehouse_pos[to - 40]);
        }
    }
}

/// At the end of a turn the space bar lets the same player play again after a six, and
/// passes the turn to the next player in seating order otherwise.
pub proof fn lemma_turn_rotation(s: GameView, dice: usize)
    requires
        s.wf(),
        s.curr_player.player_action == PlayerAction::Playing,
    ensures
        s.curr_player.roll == Some(6usize) ==> s.spaced(dice).curr_player.id == s.curr_player.id,
        (s.curr_player.roll matches Some(roll) && roll < 6) ==> s.spaced(dice).curr_player.id == (
        s.curr_player.id + 1) % (s.players.len() as int),
        s.spaced(dice).curr_player.roll is None,
        s.spaced(dice).curr_player.selected_pawn_id is None,
        s.spaced(dice).curr_player.player_action == PlayerAction::WaitingRoll,
{
    let last = s.players.len() - 1;
    assert(s.players[last].id == last);
}


/// What the keys of a move and of the end of a turn do: Enter tries the move, and the
/// space bar after it ends the turn or rolls.
pub proof fn lemma_enter_then_space_keys(s: GameView, first: usize, second: usize)
    ensures
        s.keyed(KeyInput::Enter, first) == s.entered(),
        s.keyed(KeyInput::Char(' '), second) == s.spaced(second),
        s.keyed(KeyInput::Enter, first).keyed(KeyInput::Char(' '), second) == s.entered().spaced(
            second,
        ),
{
}

/// Every legal move, whether it captures or not, ends the turn; the space bar then lets
/// the same player play again after a six, and passes the turn to the next player in
/// seating order after any smaller roll. Either way the roll and the selection are
/// cleared and a roll is awaited.
pub proof fn lemma_move_then_space(s: GameView, dice: usize)
    requires
        s.wf(),
        s.curr_player.player_action == PlayerAction::Hovering,
        s.verdict(s.picked_field(), s.curr_player.curr_hover_position) is Ok,
    ensures
        s.entered().curr_player.player_action == PlayerAction::Playing,
        s.entered().curr_player.id == s.curr_player.id,
        s.entered().curr_player.roll == s.curr_player.roll,
        s.curr_player.roll == Some(6usize) ==> s.entered().spaced(dice).curr_player.id
            == s.curr_player.id,
        (s.curr_player.roll matches Some(roll) && roll < 6) ==> s.entered().spaced(
            dice,
        ).curr_player.id == (s.curr_player.id + 1) % (s.players.len() as int),
        s.entered().spaced(dice).curr_player.roll is None,
        s.entered().spaced(dice).curr_player.selected_pawn_id is None,
        s.entered().spaced(dice).curr_player.player_action == PlayerAction::WaitingRoll,
{
    let k = s.curr_player.selected_pawn_id->0 as int;
    let target = s.curr_player.curr_hover_position;
    let f = s.picked_field();
    lemma_path_cell(s, s.curr_player.curr_hover_flat);
    super::keys::lemma_verdict_ok(s, k, target);
    let goes_to = if s.verdict(f, target) == Ok::<GoodMoveType, BadMoveType>(GoodMoveType::Start) {
        s.current().start_pos
    } else {
        target
    };
    lemma_move_wf(s, f, goes_to);
    let last = s.players.len() - 1;
    assert(s.players[last].id == last);
}


/// The path is always numbered in the frame of the player whose turn it is: that
/// player's entry cell has the slot that the first player's colour gives, which is slot
/// 0 where red sits first, and the player's final cells follow the ring as slots 40 to 43.
pub proof fn lemma_path_is_in_current_frame(s: GameView)
    requires
        s.wf(),
    ensures
        s.path_map[(10 * s.players[0].pawn_color.spec_ordinal()) as usize]
            == s.current().start_pos,
        s.players[0].pawn_color == crate::entities::pawn::PawnColor::RED ==> s.path_map[0]
            == s.current().start_pos,
        forall|j: int| 0 <= j < 4 ==> s.path_map[(40 + j) as usize] == #[trigger] s.current().safehouse_pos[j],
{
    let me = s.current();
    let first = s.players[0];
    assert(me.has_layout_of_color());
    super::turn::lemma_start_on_ring(me.pawn_color);
    let k = (10 * first.pawn_color.spec_ordinal()) as usize;
    assert((k + 10 * s.frame()) % 40 == 10 * me.pawn_color.spec_ordinal());
}

} // verus!
