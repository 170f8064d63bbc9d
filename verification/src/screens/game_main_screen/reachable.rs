//! Why every key leaves a match in a state that play can reach.

use vstd::prelude::*;

use super::current_player::CurrentPlayer;
use super::event_handler::lemma_progress_wf;
use super::keys::lemma_verdict_ok;
use super::lockstep::lemma_home_cells;
use super::lockstep::lemma_move_wf;
use super::move_type::BadMoveType;
use super::move_type::GoodMoveType;
use super::screen::board_put;
use super::screen::in_grid;
use super::screen::lemma_board_put;
use super::screen::lemma_path_cell;
use super::screen::lemma_pieces_carry;
use super::screen::lemma_same_pieces_wf;
use super::screen::lemma_slot_of;
use super::screen::path_in_frame;
use super::screen::slot_of;
use super::screen::GameView;
use super::screen::HoverDir;
use super::screen::PlayerAction;
use super::turn::lemma_start_has_slot;
use crate::entities::field::Field;
use crate::event::KeyInput;

verus! {

/// Putting the hover on a cell keeps a reachable state reachable, and makes one of a
/// state that lacks nothing but a hover on its slot, where the path leads to the cell.
pub proof fn lemma_focused_wf(s: GameView, pos: (usize, usize))
    requires
        s.settled(),
        in_grid(pos),
        s.hover_wf() || slot_of(s.path_map, pos) is Some,
    ensures
        s.focused(pos).wf(),
{
    let t = s.focused(pos);
    lemma_slot_of(s.path_map, pos);
    if slot_of(s.path_map, pos) is Some {
        let left = s.curr_player.curr_hover_position;
        let unmarked = Field { is_hovered: false, ..s.cell(left) };
        let b1 = board_put(s.board, unmarked);
        assert(s.cell(left).position == left && s.cell(pos).position == pos);
        lemma_board_put(s.board, unmarked, pos);
        let marked = Field { is_hovered: true, ..b1[pos.0 as int][pos.1 as int] };
        assert(s.same_pieces(t)) by {
            assert forall|q: (usize, usize)| in_grid(q) implies #[trigger] t.cell(q) == (Field {
                is_hovered: t.cell(q).is_hovered,
                ..s.cell(q)
            }) by {
                lemma_board_put(s.board, unmarked, q);
                lemma_board_put(b1, marked, q);
            }
        }
        lemma_same_pieces_wf(s, t);
    }
}

/// A step of the hover keeps a reachable state reachable.
pub proof fn lemma_hovered_wf(s: GameView, dir: HoverDir)
    requires
        s.wf(),
    ensures
        s.hovered(dir).wf(),
{
    let t = s.hovered(dir);
    if s.hover_active() {
        let from = s.curr_player.curr_hover_flat;
        let to = t.curr_player.curr_hover_flat;
        lemma_path_cell(s, from);
        lemma_path_cell(s, to);
        let from_cell = s.path_map[from];
        let to_cell = s.path_map[to];
        let unmarked = Field { is_hovered: false, ..s.cell(from_cell) };
        assert(s.cell(from_cell).position == from_cell && s.cell(to_cell).position == to_cell);
        let b1 = board_put(s.board, unmarked);
        lemma_board_put(s.board, unmarked, to_cell);
        let marked = Field { is_hovered: true, ..b1[to_cell.0 as int][to_cell.1 as int] };
        assert(s.same_pieces(t)) by {
            assert forall|q: (usize, usize)| in_grid(q) implies #[trigger] t.cell(q) == (Field {
                is_hovered: t.cell(q).is_hovered,
                ..s.cell(q)
            }) by {
                lemma_board_put(s.board, unmarked, q);
                lemma_board_put(b1, marked, q);
            }
        }
        lemma_same_pieces_wf(s, t);
    }
}

/// Passing the turn keeps a reachable state reachable.
pub proof fn lemma_next_turn_wf(s: GameView)
    requires
        s.wf(),
    ensures
        s.next_turn().wf(),
        s.next_turn().players == s.players,
{
    let passed = GameView {
        curr_player: CurrentPlayer {
            id: ((s.curr_player.id + 1) % (s.players.len() as int)) as usize,
            ..s.curr_player.restarted()
        },
        message: "Press SPACE to roll!"@,
        ..s
    };
    let turned = GameView {
        path_map: path_in_frame(passed.frame(), passed.current().safehouse_pos),
        ..passed
    };
    let last = s.players.len() - 1;
    assert(s.players[last].id == last);
    let incoming = passed.current();
    assert(incoming.has_layout_of_color());
    lemma_home_cells(incoming.pawn_color, 0, incoming.pawn_color, 0);
    lemma_start_has_slot(passed.frame(), incoming.safehouse_pos, incoming.pawn_color);
    lemma_pieces_carry(s, turned);
    assert(turned.frame() == passed.frame());
    lemma_path_cell(s, s.curr_player.curr_hover_flat);
    assert(turned.settled());
    lemma_focused_wf(turned, incoming.start_pos);
    lemma_slot_of(turned.path_map, incoming.start_pos);
}

/// Recording the winner keeps a reachable state reachable.
pub proof fn lemma_judged_wf(s: GameView)
    requires
        s.wf(),
    ensures
        s.judged().wf(),
{
    lemma_progress_wf(s, s.judged());
}

/// Enter keeps a reachable state reachable.
pub proof fn lemma_entered_wf(s: GameView)
    requires
        s.wf(),
    ensures
        s.entered().wf(),
{
    if s.curr_player.player_action == PlayerAction::Hovering {
        let k = s.curr_player.selected_pawn_id->0 as int;
        let f = s.picked_field();
        let target = s.curr_player.curr_hover_position;
        lemma_path_cell(s, s.curr_player.curr_hover_flat);
        let _ = s.pawn(s.curr_player.id as int, k);
        let done = CurrentPlayer { player_action: PlayerAction::Playing, ..s.curr_player };
        let tried: GameView = match s.verdict(f, target) {
            Ok(GoodMoveType::Start) => GameView {
                message: super::keys::valid_move_text(),
                curr_player: done,
                ..s.moved(f, s.current().start_pos)
            },
            Ok(GoodMoveType::Move) | Ok(GoodMoveType::EatMove) => if s.captures(f, target) {
                GameView {
                    message: super::keys::valid_move_text(),
                    curr_player: done,
                    ..s.moved(f, target)
                }
            } else {
                GameView { curr_player: done, ..s.moved(f, target) }
            },
            Ok(GoodMoveType::Safehouse) => s,
            Err(bad) => GameView { message: s.refusal(bad), ..s },
        };
        assert(tried.wf()) by {
            if s.verdict(f, target) is Ok {
                lemma_verdict_ok(s, k, target);
                if s.verdict(f, target) == Ok::<GoodMoveType, BadMoveType>(GoodMoveType::Start) {
                    lemma_move_wf(s, f, s.current().start_pos);
                    lemma_progress_wf(s.moved(f, s.current().start_pos), tried);
                } else {
                    lemma_move_wf(s, f, target);
                    lemma_progress_wf(s.moved(f, target), tried);
                }
            } else {
                lemma_progress_wf(s, tried);
            }
        }
        lemma_judged_wf(tried);
    }
}

/// Every key keeps a running match in a state that play can reach: the board and the
/// players keep agreeing on every pawn, and every count of pawns on the board stays the
/// number of pawns away from their resting cells, whatever the dice show.
pub proof fn lemma_keyed_wf(s: GameView, key: KeyInput, dice: usize)
    requires
        s.wf(),
    ensures
        s.keyed(key, dice).wf(),
        s.keyed(key, dice).in_lockstep(),
        s.keyed(key, dice).counts_match(),
{
    let t = s.keyed(key, dice);
    match key {
        KeyInput::Esc => {
            lemma_progress_wf(s, t);
        },
        KeyInput::Up | KeyInput::Down | KeyInput::Left | KeyInput::Right => {
            if s.curr_player.player_action == PlayerAction::Hovering {
                lemma_hovered_wf(s, super::event_handler::direction_of(key)->0);
            }
        },
        KeyInput::Enter => {
            lemma_entered_wf(s);
        },
        KeyInput::Backspace => {
            lemma_progress_wf(s, t);
        },
        KeyInput::Char(c) => {
            if c == '1' || c == '2' || c == '3' || c == '4' {
                let digit = super::event_handler::digit_of(key);
                if s.curr_player.player_action == PlayerAction::Selecting {
                    let picked = GameView {
                        curr_player: CurrentPlayer {
                            selected_pawn_id: Some((digit - 1) as usize),
                            player_action: PlayerAction::Hovering,
                            ..s.curr_player
                        },
                        message: super::event_handler::selected_text(digit),
                        ..s
                    };
                    lemma_progress_wf(s, picked);
                    let me = s.current();
                    let _ = s.pawn(s.curr_player.id as int, digit - 1);
                    assert(me.has_layout_of_color());
                    lemma_home_cells(me.pawn_color, 0, me.pawn_color, 0);
                    lemma_focused_wf(picked, s.focus_for(digit - 1));
                }
            } else if c == ' ' {
                if s.curr_player.player_action == PlayerAction::Playing {
                    if s.curr_player.roll matches Some(roll) && roll >= 6 {
                        lemma_progress_wf(s, t);
                    } else {
                        lemma_next_turn_wf(s);
                    }
                } else {
                    lemma_progress_wf(s, t);
                }
            }
        },
        KeyInput::Other => {},
    }
}

} // verus!
