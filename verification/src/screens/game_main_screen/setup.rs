//! Setting up a match: the empty board, every pawn on its resting cell, the path in
//! the frame of red, and the hover on the first player's entry cell.

use vstd::prelude::*;

use super::current_player::CurrentPlayer;
use super::lockstep::lemma_home_cells;
use super::screen::away_count;
use super::screen::in_grid;
use super::screen::is_fresh_roster;
use super::screen::path_in_frame;
use super::screen::rests_at;
use super::screen::slot_of;
use super::screen::GameMainScreen;
use super::screen::GameState;
use super::screen::GameView;
use super::turn::lemma_start_has_slot;
use crate::entities::board::extend_safehouses;
use crate::entities::board::get_path_map;
use crate::entities::board::initialize_board;
use crate::entities::board::layout_field;
use crate::entities::board::layout_kind;
use crate::entities::field::Field;
use crate::entities::field::FieldKind;
use crate::entities::pawn::Pawn;
use crate::entities::pawn::PawnColor;
use crate::entities::player::home_cell;
use crate::entities::player::Player;
use crate::screens::pause_menu::fs::FileInfo;
use crate::screens::pause_menu::screen::PauseMenu;

verus! {

/// The colours of the players, in seating order.
pub open spec fn colors_of(players: Seq<Player>) -> Seq<PawnColor> {
    Seq::new(players.len(), |p: int| players[p].pawn_color)
}

/// Among fresh players no two pawns share a resting cell.
proof fn lemma_one_rest_per_pawn(players: Seq<Player>, pa: int, ka: int, pb: int, kb: int)
    requires
        is_fresh_roster(players),
        0 <= pa < players.len(),
        0 <= ka < 4,
        0 <= pb < players.len(),
        0 <= kb < 4,
        players[pa].home_pos[ka] == players[pb].home_pos[kb],
    ensures
        pa == pb,
        ka == kb,
{
    assert(players[pa].has_layout_of_color());
    assert(players[pb].has_layout_of_color());
    lemma_home_cells(players[pa].pawn_color, ka, players[pb].pawn_color, kb);
    if pa < pb {
        assert(players[pa].pawn_color != players[pb].pawn_color);
    }
    if pb < pa {
        assert(players[pb].pawn_color != players[pa].pawn_color);
    }
}

/// The first `seated` players have their pawns on the board, and nobody else has.
spec fn seated_so_far(g: GameView, seated: int) -> bool {
    &&& forall|pos: (usize, usize)|
        in_grid(pos) ==> #[trigger] g.cell(pos) == (Field {
            pawn: g.cell(pos).pawn,
            ..layout_field(pos.0 as int, pos.1 as int)
        })
    &&& forall|p: int, k: int|
        0 <= p < seated && 0 <= k < 4 ==> (#[trigger] g.cell(g.players[p].home_pos[k])).pawn
            == Some(g.players[p].pawns[k])
    &&& forall|pos: (usize, usize)|
        in_grid(pos) && (#[trigger] g.occupant(pos)) is Some ==> exists|p: int, k: int|
            0 <= p < seated && #[trigger] rests_at(g.players, pos, p, k)
}

/// Who is seated depends on the players and the board alone.
proof fn lemma_seated_carry(g1: GameView, g2: GameView, seated: int)
    requires
        seated_so_far(g1, seated),
        g2.players == g1.players,
        g2.board == g1.board,
    ensures
        seated_so_far(g2, seated),
{
    assert forall|pos: (usize, usize)| in_grid(pos) implies #[trigger] g2.cell(pos) == (Field {
        pawn: g2.cell(pos).pawn,
        ..layout_field(pos.0 as int, pos.1 as int)
    }) by {
        let _ = g1.cell(pos);
    }
    assert forall|p: int, k: int| 0 <= p < seated && 0 <= k < 4 implies (#[trigger] g2.cell(
        g2.players[p].home_pos[k],
    )).pawn == Some(g2.players[p].pawns[k]) by {
        let _ = g1.cell(g1.players[p].home_pos[k]);
    }
    assert forall|pos: (usize, usize)|
        in_grid(pos) && (#[trigger] g2.occupant(pos)) is Some implies exists|p: int, k: int|
        0 <= p < seated && #[trigger] rests_at(g2.players, pos, p, k) by {
        let _ = g1.occupant(pos);
    }
}

impl GameMainScreen {
    /// Puts the four pawns of player `p` on their resting cells.
    fn seat(&mut self, p: usize)
        requires
            is_fresh_roster(old(self)@.players),
            p < old(self).players.len(),
            seated_so_far(old(self)@, p as int),
        ensures
            seated_so_far(final(self)@, p + 1),
            final(self).players == old(self).players,
            final(self).path_map == old(self).path_map,
            final(self).message == old(self).message,
            final(self).curr_player == old(self).curr_player,
            final(self).state == old(self).state,
            final(self).is_game_finished == old(self).is_game_finished,
            final(self).should_normalize_movement == old(self).should_normalize_movement,
            final(self).playing_colors == old(self).playing_colors,
            final(self).game_winner == old(self).game_winner,
            final(self).pause_menu == old(self).pause_menu,
    {
        let ghost players = self@.players;
        let player: Player = self.players[p];
        assert(player.has_layout_of_color());
        let mut i: usize = 0;
        while i < 4
            invariant
                i <= 4,
                p < self.players.len(),
                self.players == old(self).players,
                players == self@.players,
                player == players[p as int],
                is_fresh_roster(players),
                self.path_map == old(self).path_map,
                self.message == old(self).message,
                self.curr_player == old(self).curr_player,
                self.state == old(self).state,
                self.is_game_finished == old(self).is_game_finished,
                self.should_normalize_movement == old(self).should_normalize_movement,
                self.playing_colors == old(self).playing_colors,
                self.game_winner == old(self).game_winner,
                self.pause_menu == old(self).pause_menu,
                forall|pos: (usize, usize)|
                    in_grid(pos) ==> #[trigger] self@.cell(pos) == (Field {
                        pawn: self@.cell(pos).pawn,
                        ..layout_field(pos.0 as int, pos.1 as int)
                    }),
                forall|q: int, k: int|
                    (0 <= q < p && 0 <= k < 4) || (q == p && 0 <= k < i) ==> (#[trigger] self@.cell(
                        players[q].home_pos[k],
                    )).pawn == Some(players[q].pawns[k]),
                forall|pos: (usize, usize)|
                    in_grid(pos) && (#[trigger] self@.occupant(pos)) is Some ==> exists|
                        q: int,
                        k: int,
                    |
                        0 <= q < p + 1 && #[trigger] rests_at(players, pos, q, k),
            decreases 4 - i,
        {
            let (row, col) = player.home_pos[i];
            proof {
                lemma_home_cells(player.pawn_color, i as int, player.pawn_color, i as int);
            }
            let ghost before = self@;
            self.board[row][col].pawn = Some(player.pawns[i]);
            proof {
                let after = self@;
                let here = (row, col);
                assert forall|pos: (usize, usize)| in_grid(pos) implies #[trigger] after.cell(pos)
                    == (if pos == here {
                    Field { pawn: Some(player.pawns[i as int]), ..before.cell(pos) }
                } else {
                    before.cell(pos)
                }) by {}
                assert forall|q: int, k: int|
                    (0 <= q < p && 0 <= k < 4) || (q == p && 0 <= k < i + 1) implies (
                #[trigger] after.cell(players[q].home_pos[k])).pawn == Some(
                    players[q].pawns[k],
                ) by {
                    if !(q == p && k == i) {
                        if players[q].home_pos[k] == here {
                            lemma_one_rest_per_pawn(players, q, k, p as int, i as int);
                        }
                        let _ = before.cell(players[q].home_pos[k]);
                    }
                }
                assert forall|pos: (usize, usize)|
                    in_grid(pos) && (#[trigger] after.occupant(pos)) is Some implies exists|
                    q: int,
                    k: int,
                |
                    0 <= q < p + 1 && #[trigger] rests_at(players, pos, q, k) by {
                    let _ = after.cell(pos);
                    if pos == here {
                        assert(rests_at(players, pos, p as int, i as int));
                    } else {
                        let _ = before.occupant(pos);
                    }
                }
            }
            i += 1;
        }
    }

    /// The match is one between `players` that is about to begin: every pawn rests on
    /// its own resting cell and no other cell holds a pawn, the first player is to roll,
    /// the path is in the frame of red with the first player's final cells, the hover is
    /// on the first player's entry cell, and the pause menu is up, opened on the saves
    /// that are on disk.
    pub open spec fn is_opening(self, players: Seq<Player>, save_files: Seq<FileInfo>) -> bool {
        let game = self@;
        &&& self.pause_menu.is_opening(save_files)
        &&& game.players == players
        &&& game.state == GameState::PAUSED
        &&& !game.is_game_finished
        &&& !game.should_normalize_movement
        &&& game.game_winner is None
        &&& game.message == "Press SPACE to roll the dice!"@
        &&& game.playing_colors == colors_of(players)
        &&& game.path_map == path_in_frame(0, players[0].safehouse_pos)
        &&& game.curr_player == (CurrentPlayer {
            curr_hover_flat: game.curr_player.curr_hover_flat,
            curr_hover_position: players[0].start_pos,
            ..CurrentPlayer::spec_new()
        })
        &&& slot_of(game.path_map, players[0].start_pos) == Some(game.curr_player.curr_hover_flat)
        &&& forall|pos: (usize, usize)|
            in_grid(pos) ==> #[trigger] game.cell(pos) == (Field {
                is_hovered: pos == players[0].start_pos,
                pawn: game.cell(pos).pawn,
                ..layout_field(pos.0 as int, pos.1 as int)
            })
        &&& forall|p: int, k: int|
            0 <= p < players.len() && 0 <= k < 4 ==> (#[trigger] game.cell(
                players[p].home_pos[k],
            )).pawn == Some(players[p].pawns[k])
        &&& forall|pos: (usize, usize)|
            in_grid(pos) && (#[trigger] game.occupant(pos)) is Some ==> exists|p: int, k: int| #[trigger]
                rests_at(players, pos, p, k)
    }

    /// A match between `players`, about to begin.
    pub fn new(players: Vec<Player>, save_files: &Vec<FileInfo>) -> (game: GameMainScreen)
        requires
            is_fresh_roster(players@),
        ensures
            game@.wf(),
            game.pause_menu.wf(),
            game.is_opening(players@, save_files@),
    {
        let ghost roster = players@;
        let mut game = GameMainScreen {
            players,
            curr_player: CurrentPlayer::new(),
            state: GameState::PAUSED,
            is_game_finished: false,
            board: initialize_board(),
            path_map: get_path_map(),
            message: String::from_str("Press SPACE to roll the dice!"),
            should_normalize_movement: false,
            playing_colors: Vec::new(),
            game_winner: None,
            pause_menu: PauseMenu::new(save_files),
        };
        assert(seated_so_far(game@, 0)) by {
            assert forall|pos: (usize, usize)| in_grid(pos) implies #[trigger] game@.cell(pos) == (
            Field { pawn: game@.cell(pos).pawn, ..layout_field(pos.0 as int, pos.1 as int) }) by {
                assert(game.board[pos.0 as int][pos.1 as int] == layout_field(
                    pos.0 as int,
                    pos.1 as int,
                ));
            }
            assert forall|pos: (usize, usize)|
                in_grid(pos) && (#[trigger] game@.occupant(pos)) is Some implies exists|
                p: int,
                k: int,
            |
                0 <= p < 0 && #[trigger] rests_at(game@.players, pos, p, k) by {
                assert(game.board[pos.0 as int][pos.1 as int] == layout_field(
                    pos.0 as int,
                    pos.1 as int,
                ));
            }
        }

        let mut p: usize = 0;
        while p < game.players.len()
            invariant
                p <= game.players.len(),
                game.players@ == roster,
                is_fresh_roster(roster),
                seated_so_far(game@, p as int),
                game.playing_colors@ == colors_of(roster).subrange(0, p as int),
                game.path_map@ == crate::entities::board::ring_map(),
                game.message@ == "Press SPACE to roll the dice!"@,
                game.curr_player == CurrentPlayer::spec_new(),
                game.state == GameState::PAUSED,
                !game.is_game_finished,
                !game.should_normalize_movement,
                game.game_winner is None,
                game.pause_menu.wf(),
                game.pause_menu.is_opening(save_files@),
            decreases game.players.len() - p,
        {
            game.seat(p);
            let ghost seated = game@;
            let color: PawnColor = game.players[p].pawn_color;
            game.playing_colors.push(color);
            assert(game.playing_colors@ =~= colors_of(roster).subrange(0, p + 1));
            proof {
                lemma_seated_carry(seated, game@, p + 1);
            }
            p += 1;
        }
        assert(game.playing_colors@ =~= colors_of(roster));

        let first: Player = game.players[game.curr_player.id];
        let ghost seated = game@;
        game.path_map = extend_safehouses(&get_path_map(), first.safehouse_pos);
        proof {
            lemma_seated_carry(seated, game@, roster.len() as int);
        }

        proof {
            let g = game@;
            assert(g.frame() == 0);
            assert(g.path_map =~= path_in_frame(0, first.safehouse_pos));
            assert(first.has_layout_of_color());
            lemma_home_cells(first.pawn_color, 0, first.pawn_color, 0);
            lemma_start_has_slot(0, first.safehouse_pos, first.pawn_color);
            lemma_opening_settled(g);
        }
        let ghost unfocused = game@;
        game.set_hover(first.start_pos);
        proof {
            let g = game@;
            let start = first.start_pos;
            let origin = (0usize, 0usize);
            assert(unfocused.cell(origin).position == origin);
            assert(unfocused.cell(start).position == start);
            let unmarked = Field { is_hovered: false, ..unfocused.cell(origin) };
            let b1 = super::screen::board_put(unfocused.board, unmarked);
            super::screen::lemma_board_put(unfocused.board, unmarked, start);
            let marked = Field { is_hovered: true, ..b1[start.0 as int][start.1 as int] };
            assert forall|pos: (usize, usize)| in_grid(pos) implies #[trigger] g.cell(pos) == (
            Field {
                is_hovered: pos == start,
                pawn: unfocused.cell(pos).pawn,
                ..layout_field(pos.0 as int, pos.1 as int)
            }) by {
                super::screen::lemma_board_put(unfocused.board, unmarked, pos);
                super::screen::lemma_board_put(b1, marked, pos);
                let _ = unfocused.cell(pos);
            }
            assert forall|q: int, k: int| 0 <= q < roster.len() && 0 <= k < 4 implies (
            #[trigger] g.cell(roster[q].home_pos[k])).pawn == Some(roster[q].pawns[k]) by {
                assert(roster[q].has_layout_of_color());
                lemma_home_cells(roster[q].pawn_color, k, roster[q].pawn_color, k);
                let _ = unfocused.cell(roster[q].home_pos[k]);
            }
            assert forall|pos: (usize, usize)|
                in_grid(pos) && (#[trigger] g.occupant(pos)) is Some implies exists|p: int, k: int| #[trigger]
                rests_at(roster, pos, p, k) by {
                let _ = g.cell(pos);
                let _ = unfocused.occupant(pos);
            }
        }
        game
    }
}

/// A board on which every pawn rests, with the path in the frame of red, is all that a
/// reachable state needs, but for where the hover rests.
proof fn lemma_opening_settled(g: GameView)
    requires
        is_fresh_roster(g.players),
        seated_so_far(g, g.players.len() as int),
        g.curr_player == CurrentPlayer::spec_new(),
        g.path_map == path_in_frame(0, g.players[0].safehouse_pos),
    ensures
        g.settled(),
{
    assert(g.roster_wf()) by {
        assert forall|p: int| 0 <= p < g.players.len() implies {
            &&& (#[trigger] g.players[p]).id == p
            &&& g.players[p].has_layout_of_color()
            &&& forall|k: int| 0 <= k < 4 ==> g.players[p].owns_pawn(k)
        } by {
            let pl = g.players[p];
            assert(pl.is_fresh(pl.id, pl.order, pl.pawn_color));
            assert forall|k: int| 0 <= k < 4 implies pl.owns_pawn(k) by {
                assert(pl.pawns[k] == Pawn::spec_new(
                    k as usize,
                    pl.pawn_color,
                    pl.id,
                    home_cell(pl.pawn_color, k),
                ));
            }
        }
    }
    assert(g.board_wf()) by {
        assert forall|pos: (usize, usize)| in_grid(pos) implies {
            &&& (#[trigger] g.cell(pos)).kind == layout_kind(pos.0 as int, pos.1 as int)
            &&& g.cell(pos).position == pos
            &&& g.cell(pos).is_visible == (g.cell(pos).kind != FieldKind::Gap)
        } by {}
    }
    assert forall|p: int, k: int| 0 <= p < g.players.len() && 0 <= k < 4 implies #[trigger] g.pawn(
        p,
        k,
    ) == Pawn::spec_new(
        k as usize,
        g.players[p].pawn_color,
        g.players[p].id,
        g.players[p].home_pos[k],
    ) && in_grid(g.players[p].home_pos[k]) by {
        assert(g.players[p].is_fresh(g.players[p].id, g.players[p].order, g.players[p].pawn_color));
        let _ = g.players[p].pawns[k];
        assert(g.players[p].has_layout_of_color());
        lemma_home_cells(g.players[p].pawn_color, k, g.players[p].pawn_color, k);
    }
    assert(g.in_lockstep()) by {
        assert forall|p: int, k: int| 0 <= p < g.players.len() && 0 <= k < 4 implies {
            &&& in_grid((#[trigger] g.pawn(p, k)).position)
            &&& g.cell(g.pawn(p, k).position).pawn == Some(g.pawn(p, k))
            &&& (g.players[p].pawn_at_home(k) || !layout_kind(
                g.pawn(p, k).position.0 as int,
                g.pawn(p, k).position.1 as int,
            ).is_home())
        } by {
            let _ = g.cell(g.players[p].home_pos[k]);
        }
        assert forall|pos: (usize, usize)| in_grid(pos) implies ((#[trigger] g.occupant(
            pos,
        )) matches Some(pw) ==> {
            &&& pw.player_id < g.players.len()
            &&& pw.id < 4
            &&& g.pawn(pw.player_id as int, pw.id as int) == pw
            &&& pw.position == pos
        }) by {
            if g.occupant(pos) is Some {
                let (p, k) = choose|p: int, k: int|
                    0 <= p < g.players.len() && #[trigger] rests_at(g.players, pos, p, k);
                let _ = g.cell(g.players[p].home_pos[k]);
                let _ = g.pawn(p, k);
            }
        }
    }
    assert(g.counts_match()) by {
        assert forall|p: int| 0 <= p < g.players.len() implies (
        #[trigger] g.players[p]).pawns_on_board == away_count(g.players[p]) by {
            assert(g.players[p].is_fresh(g.players[p].id, g.players[p].order, g.players[p].pawn_color));
            let _ = g.pawn(p, 0);
            let _ = g.pawn(p, 1);
            let _ = g.pawn(p, 2);
            let _ = g.pawn(p, 3);
        }
    }
    assert(g.frame() == 0);
}

} // verus!
