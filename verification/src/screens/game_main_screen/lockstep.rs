//! Why captures and moves keep the board and the players in agreement.

use vstd::prelude::*;

use super::screen::away_count;
use super::screen::in_grid;
use super::screen::lemma_board_put;
use super::screen::vacated;
use super::screen::with_pawn;
use super::screen::GameView;
use crate::entities::board::layout_kind;
use crate::entities::field::Field;
use crate::entities::field::FieldKind;
use crate::entities::pawn::Pawn;
use crate::entities::pawn::PawnColor;
use crate::entities::player::home_cell;
use crate::entities::player::Player;

verus! {

/// Resting cells lie on the grid, carry the resting kind of their colour, and no two of
/// them coincide.
pub proof fn lemma_home_cells(ca: PawnColor, ka: int, cb: PawnColor, kb: int)
    requires
        0 <= ka < 4,
        0 <= kb < 4,
    ensures
        in_grid(home_cell(ca, ka)),
        layout_kind(home_cell(ca, ka).0 as int, home_cell(ca, ka).1 as int) == FieldKind::home_of(ca),
        home_cell(ca, ka) == home_cell(cb, kb) ==> ca == cb && ka == kb,
{
}

/// What a write changes: the cell written, and the one pawn that the field carries.
pub proof fn lemma_written(s: GameView, f: Field)
    requires
        in_grid(f.position),
        f.pawn matches Some(pw) ==> pw.player_id < s.players.len() && pw.id < 4,
    ensures
        s.written(f).players.len() == s.players.len(),
        forall|pos: (usize, usize)|
            in_grid(pos) ==> #[trigger] s.written(f).cell(pos) == (if pos == f.position {
                f
            } else {
                s.cell(pos)
            }),
        forall|p: int|
            0 <= p < s.players.len() ==> #[trigger] s.written(f).players[p] == (if (f.pawn matches Some(pw)
                && pw.player_id == p) {
                with_pawn(s.players[p], f.pawn->0)
            } else {
                s.players[p]
            }),
        s.written(f).path_map == s.path_map,
        s.written(f).curr_player == s.curr_player,
{
    assert forall|pos: (usize, usize)| in_grid(pos) implies #[trigger] s.written(f).cell(pos) == (
    if pos == f.position {
        f
    } else {
        s.cell(pos)
    }) by {
        lemma_board_put(s.board, f, pos);
    }
}

/// The pawns of a player after one of them has been replaced.
pub proof fn lemma_with_pawn(player: Player, pawn: Pawn, k: int)
    requires
        pawn.id < 4,
        0 <= k < 4,
    ensures
        with_pawn(player, pawn).pawns[k] == (if k == pawn.id {
            pawn
        } else {
            player.pawns[k]
        }),
{
}

/// Two pawns of a reachable state that stand on the same cell are the same pawn.
pub proof fn lemma_one_pawn_per_cell(s: GameView, pa: int, ka: int, pb: int, kb: int)
    requires
        s.wf(),
        0 <= pa < s.players.len(),
        0 <= ka < 4,
        0 <= pb < s.players.len(),
        0 <= kb < 4,
        s.pawn(pa, ka).position == s.pawn(pb, kb).position,
    ensures
        pa == pb,
        ka == kb,
{
    assert(s.players[pa].owns_pawn(ka));
    assert(s.players[pb].owns_pawn(kb));
}

/// In a reachable state the resting cell of a pawn that is away stands empty.
pub proof fn lemma_home_is_free(s: GameView, p: int, k: int)
    requires
        s.wf(),
        0 <= p < s.players.len(),
        0 <= k < 4,
        !s.players[p].pawn_at_home(k),
    ensures
        in_grid(s.players[p].home_pos[k]),
        s.cell(s.players[p].home_pos[k]).pawn is None,
        layout_kind(s.players[p].home_pos[k].0 as int, s.players[p].home_pos[k].1 as int).is_home(),
{
    let h = s.players[p].home_pos[k];
    let c = s.players[p].pawn_color;
    assert(s.players[p].has_layout_of_color());
    assert(h == home_cell(c, k));
    lemma_home_cells(c, k, c, k);
    if s.occupant(h) is Some {
        let q = s.occupant(h)->0;
        let pb = q.player_id as int;
        let kb = q.id as int;
        assert(s.pawn(pb, kb) == q);
        assert(s.players[pb].pawn_at_home(kb));
        assert(s.players[pb].has_layout_of_color());
        let cb = s.players[pb].pawn_color;
        lemma_home_cells(c, k, cb, kb);
        assert(s.players[pb].home_pos[kb] == home_cell(cb, kb));
        assert(c == cb && k == kb);
        if pb < p {
            assert(s.players[pb].pawn_color != s.players[p].pawn_color);
        }
        if p < pb {
            assert(s.players[p].pawn_color != s.players[pb].pawn_color);
        }
        assert(false);
    }
}


/// `t` is `s` after pawn `k` of player `p` has gone to the free cell `d`, which is the
/// pawn's own resting cell or no resting cell at all: the cell left is empty, the cell
/// reached holds the pawn, the owner's array and count follow, and nothing else has
/// changed but, possibly, hover marks.
pub open spec fn is_transfer(s: GameView, t: GameView, p: int, k: int, d: (usize, usize)) -> bool {
    let c = s.pawn(p, k).position;
    let set_down = Pawn { position: d, ..s.pawn(p, k) };
    let home = s.players[p].home_pos[k];
    &&& 0 <= p < s.players.len()
    &&& 0 <= k < 4
    &&& in_grid(d)
    &&& s.cell(d).pawn is None
    &&& (d == home || !layout_kind(d.0 as int, d.1 as int).is_home())
    &&& t.players.len() == s.players.len()
    &&& t.path_map == s.path_map
    &&& t.curr_player == s.curr_player
    &&& forall|pos: (usize, usize)|
        in_grid(pos) ==> #[trigger] t.cell(pos) == (Field {
            is_hovered: t.cell(pos).is_hovered,
            pawn: if pos == d {
                Some(set_down)
            } else if pos == c {
                None
            } else {
                s.cell(pos).pawn
            },
            ..s.cell(pos)
        })
    &&& forall|q: int|
        0 <= q < s.players.len() && q != p ==> #[trigger] t.players[q] == s.players[q]
    &&& t.players[p] == (Player {
        pawns_on_board: t.players[p].pawns_on_board,
        ..with_pawn(s.players[p], set_down)
    })
    &&& t.players[p].pawns_on_board == s.players[p].pawns_on_board - (if c == home {
        0int
    } else {
        1
    }) + (if d == home {
        0int
    } else {
        1
    })
}

/// The pawns of `t` are those of `s`, but for the one that went.
pub proof fn lemma_transfer_pawns(s: GameView, t: GameView, p: int, k: int, d: (usize, usize))
    requires
        s.wf(),
        is_transfer(s, t, p, k, d),
    ensures
        forall|q: int, j: int|
            0 <= q < s.players.len() && 0 <= j < 4 ==> #[trigger] t.pawn(q, j) == (if q == p && j
                == k {
                Pawn { position: d, ..s.pawn(p, k) }
            } else {
                s.pawn(q, j)
            }),
        forall|q: int|
            0 <= q < s.players.len() ==> {
                &&& (#[trigger] t.players[q]).id == s.players[q].id
                &&& t.players[q].pawn_color == s.players[q].pawn_color
                &&& t.players[q].home_pos == s.players[q].home_pos
                &&& t.players[q].safehouse_pos == s.players[q].safehouse_pos
                &&& t.players[q].start_pos == s.players[q].start_pos
                &&& t.players[q].home_field_kind == s.players[q].home_field_kind
                &&& t.players[q].start_field_kind == s.players[q].start_field_kind
                &&& t.players[q].safehouse_kind == s.players[q].safehouse_kind
            },
{
    let set_down = Pawn { position: d, ..s.pawn(p, k) };
    assert(s.players[p].owns_pawn(k));
    assert forall|q: int, j: int| 0 <= q < s.players.len() && 0 <= j < 4 implies #[trigger] t.pawn(
        q,
        j,
    ) == (if q == p && j == k {
        set_down
    } else {
        s.pawn(q, j)
    }) by {
        let _ = t.players[q];
        lemma_with_pawn(s.players[p], set_down, j);
    }
    assert forall|q: int| 0 <= q < s.players.len() implies {
        &&& (#[trigger] t.players[q]).id == s.players[q].id
        &&& t.players[q].pawn_color == s.players[q].pawn_color
        &&& t.players[q].home_pos == s.players[q].home_pos
        &&& t.players[q].safehouse_pos == s.players[q].safehouse_pos
        &&& t.players[q].start_pos == s.players[q].start_pos
        &&& t.players[q].home_field_kind == s.players[q].home_field_kind
        &&& t.players[q].start_field_kind == s.players[q].start_field_kind
        &&& t.players[q].safehouse_kind == s.players[q].safehouse_kind
    } by {
        if q != p {
            assert(t.players[q] == s.players[q]);
        }
    }
}

proof fn lemma_transfer_roster(s: GameView, t: GameView, p: int, k: int, d: (usize, usize))
    requires
        s.wf(),
        is_transfer(s, t, p, k, d),
    ensures
        t.roster_wf(),
        t.path_wf(),
        t.cursor_wf(),
        t.hover_wf(),
{
    lemma_transfer_pawns(s, t, p, k, d);
    assert forall|q: int| 0 <= q < t.players.len() implies {
        &&& (#[trigger] t.players[q]).id == q
        &&& t.players[q].has_layout_of_color()
        &&& forall|j: int| 0 <= j < 4 ==> t.players[q].owns_pawn(j)
    } by {
        assert(s.players[q].has_layout_of_color());
        assert forall|j: int| 0 <= j < 4 implies t.players[q].owns_pawn(j) by {
            let _ = t.pawn(q, j);
            assert(s.players[q].owns_pawn(j));
        }
    }
    assert forall|qa: int, qb: int| 0 <= qa < qb < t.players.len() implies (
    #[trigger] t.players[qa]).pawn_color != (#[trigger] t.players[qb]).pawn_color by {
        assert(s.players[qa].pawn_color != s.players[qb].pawn_color);
    }
    let _ = t.players[s.curr_player.id as int];
    let _ = t.players[0];
    assert(t.frame() == s.frame());
    assert(t.current().safehouse_pos == s.current().safehouse_pos);
}

proof fn lemma_transfer_board(s: GameView, t: GameView, p: int, k: int, d: (usize, usize))
    requires
        s.wf(),
        is_transfer(s, t, p, k, d),
    ensures
        t.board_wf(),
{
    assert forall|pos: (usize, usize)| in_grid(pos) implies {
        &&& (#[trigger] t.cell(pos)).kind == layout_kind(pos.0 as int, pos.1 as int)
        &&& t.cell(pos).position == pos
        &&& t.cell(pos).is_visible == (t.cell(pos).kind != FieldKind::Gap)
    } by {
        let _ = s.cell(pos);
    }
}

proof fn lemma_transfer_lockstep(s: GameView, t: GameView, p: int, k: int, d: (usize, usize))
    requires
        s.wf(),
        is_transfer(s, t, p, k, d),
    ensures
        t.in_lockstep(),
{
    lemma_transfer_pawns(s, t, p, k, d);
    let c = s.pawn(p, k).position;
    assert(s.cell(c).pawn == Some(s.pawn(p, k)));
    assert(c != d);
    assert forall|q: int, j: int| 0 <= q < t.players.len() && 0 <= j < 4 implies {
        &&& in_grid((#[trigger] t.pawn(q, j)).position)
        &&& t.cell(t.pawn(q, j).position).pawn == Some(t.pawn(q, j))
        &&& (t.players[q].pawn_at_home(j) || !layout_kind(
            t.pawn(q, j).position.0 as int,
            t.pawn(q, j).position.1 as int,
        ).is_home())
    } by {
        if q == p && j == k {
            let _ = t.cell(d);
            let _ = t.players[p];
        } else {
            let pw = s.pawn(q, j);
            let at = pw.position;
            assert(s.cell(at).pawn == Some(pw));
            if at == c {
                lemma_one_pawn_per_cell(s, q, j, p, k);
            }
            assert(at != d);
            let _ = t.cell(at);
            let _ = t.players[q];
        }
    }
    assert forall|pos: (usize, usize)| in_grid(pos) implies ((#[trigger] t.occupant(
        pos,
    )) matches Some(pw) ==> {
        &&& pw.player_id < t.players.len()
        &&& pw.id < 4
        &&& t.pawn(pw.player_id as int, pw.id as int) == pw
        &&& pw.position == pos
    }) by {
        let _ = t.cell(pos);
        if pos == d {
            assert(s.players[p].owns_pawn(k));
            let _ = t.pawn(p, k);
        } else if pos != c {
            let _ = s.occupant(pos);
            if s.occupant(pos) is Some {
                let pw = s.occupant(pos)->0;
                let _ = t.pawn(pw.player_id as int, pw.id as int);
            }
        }
    }
}

proof fn lemma_transfer_counts(s: GameView, t: GameView, p: int, k: int, d: (usize, usize))
    requires
        s.wf(),
        is_transfer(s, t, p, k, d),
    ensures
        t.counts_match(),
{
    lemma_transfer_pawns(s, t, p, k, d);
    assert forall|q: int| 0 <= q < t.players.len() implies (#[trigger] t.players[q]).pawns_on_board
        == away_count(t.players[q]) by {
        assert(s.players[q].pawns_on_board == away_count(s.players[q]));
        if q == p {
            let _ = t.pawn(p, 0);
            let _ = t.pawn(p, 1);
            let _ = t.pawn(p, 2);
            let _ = t.pawn(p, 3);
            assert(s.players[p].has_layout_of_color());
            lemma_home_cells(s.players[p].pawn_color, k, s.players[p].pawn_color, 0);
            lemma_home_cells(s.players[p].pawn_color, k, s.players[p].pawn_color, 1);
            lemma_home_cells(s.players[p].pawn_color, k, s.players[p].pawn_color, 2);
            lemma_home_cells(s.players[p].pawn_color, k, s.players[p].pawn_color, 3);
        }
    }
}

/// A pawn that goes to a free cell, its own resting cell or no resting cell at all,
/// leaves a reachable state reachable.
pub proof fn lemma_transfer_wf(s: GameView, t: GameView, p: int, k: int, d: (usize, usize))
    requires
        s.wf(),
        is_transfer(s, t, p, k, d),
    ensures
        t.wf(),
{
    lemma_transfer_roster(s, t, p, k, d);
    lemma_transfer_board(s, t, p, k, d);
    lemma_transfer_lockstep(s, t, p, k, d);
    lemma_transfer_counts(s, t, p, k, d);
}

/// Sending a pawn that is away back to its resting cell is a transfer to that cell.
pub proof fn lemma_capture_wf(s: GameView, f: Field)
    requires
        s.wf(),
        in_grid(f.position),
        f == s.cell(f.position),
        f.pawn matches Some(lp) && !s.players[lp.player_id as int].pawn_at_home(lp.id as int),
    ensures
        s.captured(f).wf(),
        s.captured(f).cell(f.position) == vacated(f),
        s.captured(f).players.len() == s.players.len(),
        s.captured(f).path_map == s.path_map,
        s.captured(f).curr_player == s.curr_player,
        f.pawn->0.player_id < s.players.len(),
        f.pawn->0.id < 4,
        s.players[f.pawn->0.player_id as int].pawns_on_board >= 1,
        in_grid(s.players[f.pawn->0.player_id as int].home_pos[f.pawn->0.id as int]),
        forall|pos: (usize, usize)|
            in_grid(pos) && pos != f.position && s.cell(pos).pawn is Some
                ==> #[trigger] s.captured(f).cell(pos) == s.cell(pos),
{
    let c = f.position;
    let lp = f.pawn->0;
    let p = lp.player_id as int;
    let k = lp.id as int;
    assert(s.occupant(c) == Some(lp));
    assert(s.pawn(p, k) == lp && lp.position == c);
    lemma_home_is_free(s, p, k);
    let owner = s.players[p];
    let h = owner.home_pos[k];
    assert(h != c);
    let sent = Pawn { position: h, ..lp };
    let counted = GameView {
        players: s.players.update(
            p,
            Player { pawns_on_board: (owner.pawns_on_board - 1) as usize, ..owner },
        ),
        ..s
    };
    let home_field = Field { pawn: Some(sent), ..s.cell(h) };
    let w1 = counted.written(home_field);
    let t = w1.written(vacated(f));
    assert(t == s.captured(f));
    assert(s.cell(h).position == h);
    assert(s.cell(c).position == c);
    assert(s.players[p].owns_pawn(k));
    lemma_written(counted, home_field);
    lemma_written(w1, vacated(f));
    assert(s.players[p].pawns_on_board == away_count(s.players[p]));
    assert(away_count(s.players[p]) >= 1);

    assert forall|pos: (usize, usize)| in_grid(pos) implies #[trigger] t.cell(pos) == (if pos
        == c {
        vacated(f)
    } else if pos == h {
        home_field
    } else {
        s.cell(pos)
    }) by {
        let _ = w1.cell(pos);
    }
    assert forall|q: int| 0 <= q < s.players.len() implies #[trigger] t.players[q] == (if q == p {
        Player {
            pawns_on_board: (owner.pawns_on_board - 1) as usize,
            ..with_pawn(owner, sent)
        }
    } else {
        s.players[q]
    }) by {
        let _ = w1.players[q];
        let _ = counted.players[q];
    }
    assert(is_transfer(s, t, p, k, h)) by {
        let _ = t.players[p];
    }
    lemma_transfer_wf(s, t, p, k, h);
}

/// What setting a pawn down on a free cell changes.
pub proof fn lemma_relocated_effect(s: GameView, f: Field, target: (usize, usize))
    requires
        s.wf(),
        in_grid(f.position),
        f == s.cell(f.position),
        f.pawn is Some,
        in_grid(target),
        s.cell(target).pawn is None,
    ensures
        f.pawn->0.player_id < s.players.len(),
        f.pawn->0.id < 4,
        s.pawn(f.pawn->0.player_id as int, f.pawn->0.id as int) == f.pawn->0,
        f.pawn->0.position == f.position,
        s.leaves_home(f) <==> s.players[f.pawn->0.player_id as int].pawn_at_home(f.pawn->0.id as int),
        s.leaves_home(f) ==> s.players[f.pawn->0.player_id as int].pawns_on_board < 4,
        s.relocated(f, target).players.len() == s.players.len(),
        s.relocated(f, target).path_map == s.path_map,
        s.relocated(f, target).curr_player == s.curr_player,
        forall|pos: (usize, usize)|
            in_grid(pos) ==> #[trigger] s.relocated(f, target).cell(pos) == (if pos == target {
                Field {
                    pawn: Some(Pawn { position: target, ..f.pawn->0 }),
                    is_hovered: false,
                    ..s.cell(target)
                }
            } else if pos == f.position {
                Field { pawn: None, ..f }
            } else {
                s.cell(pos)
            }),
        forall|q: int|
            0 <= q < s.players.len() ==> #[trigger] s.relocated(f, target).players[q] == (if q
                == f.pawn->0.player_id {
                Player {
                    pawns_on_board: (s.players[q].pawns_on_board + (if s.leaves_home(f) {
                        1int
                    } else {
                        0
                    })) as usize,
                    ..with_pawn(s.players[q], Pawn { position: target, ..f.pawn->0 })
                }
            } else {
                s.players[q]
            }),
{
    let c = f.position;
    let sp = f.pawn->0;
    let p = sp.player_id as int;
    let k = sp.id as int;
    assert(s.occupant(c) == Some(sp));
    assert(s.pawn(p, k) == sp && sp.position == c);
    assert(c != target);
    let owner = s.players[p];
    assert(owner.owns_pawn(k));
    assert(owner.has_layout_of_color());
    lemma_home_cells(owner.pawn_color, k, owner.pawn_color, k);
    assert(s.cell(c).kind == layout_kind(c.0 as int, c.1 as int));
    assert(s.leaves_home(f) <==> owner.pawn_at_home(k));
    assert(owner.pawns_on_board == away_count(owner));

    let set_down = Pawn { position: target, ..sp };
    let left = Field { pawn: None, ..f };
    let arrival = Field { pawn: Some(set_down), is_hovered: false, ..s.cell(target) };
    let w1 = s.written(left);
    let placed = w1.written(arrival);
    let t = s.relocated(f, target);
    assert(s.cell(target).position == target);
    lemma_written(s, left);
    lemma_written(w1, arrival);

    assert forall|pos: (usize, usize)| in_grid(pos) implies #[trigger] t.cell(pos) == (if pos
        == target {
        arrival
    } else if pos == c {
        left
    } else {
        s.cell(pos)
    }) by {
        let _ = placed.cell(pos);
        let _ = w1.cell(pos);
    }
    assert forall|q: int| 0 <= q < s.players.len() implies #[trigger] t.players[q] == (if q == p {
        Player {
            pawns_on_board: (s.players[q].pawns_on_board + (if s.leaves_home(f) {
                1int
            } else {
                0
            })) as usize,
            ..with_pawn(s.players[q], set_down)
        }
    } else {
        s.players[q]
    }) by {
        let _ = placed.players[q];
        let _ = w1.players[q];
    }
}

/// Setting a pawn down on a free cell that is no resting cell is a transfer to that cell.
pub proof fn lemma_relocate_wf(s: GameView, f: Field, target: (usize, usize))
    requires
        s.wf(),
        in_grid(f.position),
        f == s.cell(f.position),
        f.pawn is Some,
        in_grid(target),
        !layout_kind(target.0 as int, target.1 as int).is_home(),
        s.cell(target).pawn is None,
    ensures
        s.relocated(f, target).wf(),
        s.relocated(f, target).players.len() == s.players.len(),
        s.relocated(f, target).path_map == s.path_map,
        s.relocated(f, target).curr_player == s.curr_player,
        f.pawn->0.player_id < s.players.len(),
        f.pawn->0.id < 4,
        s.leaves_home(f) ==> s.players[f.pawn->0.player_id as int].pawns_on_board < 4,
{
    lemma_relocated_effect(s, f, target);
    let sp = f.pawn->0;
    let p = sp.player_id as int;
    let k = sp.id as int;
    let t = s.relocated(f, target);
    let owner = s.players[p];
    assert(owner.has_layout_of_color());
    lemma_home_cells(owner.pawn_color, k, owner.pawn_color, k);
    assert(is_transfer(s, t, p, k, target)) by {
        let _ = t.players[p];
        assert forall|pos: (usize, usize)| in_grid(pos) implies #[trigger] t.cell(pos) == (Field {
            is_hovered: t.cell(pos).is_hovered,
            pawn: if pos == target {
                Some(Pawn { position: target, ..s.pawn(p, k) })
            } else if pos == s.pawn(p, k).position {
                None
            } else {
                s.cell(pos).pawn
            },
            ..s.cell(pos)
        }) by {
            let _ = s.cell(pos);
        }
    }
    lemma_transfer_wf(s, t, p, k, target);
}

/// Moving a pawn to a cell that holds no pawn of the mover's colour, and no pawn at rest,
/// keeps a reachable state reachable unless the pawn is set down on a resting cell.
pub proof fn lemma_move_wf(s: GameView, f: Field, target: (usize, usize))
    requires
        s.wf(),
        in_grid(f.position),
        f == s.cell(f.position),
        f.pawn is Some,
        in_grid(target),
        s.can_take(f, target),
    ensures
        !layout_kind(target.0 as int, target.1 as int).is_home() ==> s.moved(f, target).wf(),
        s.moved(f, target).players.len() == s.players.len(),
        s.moved(f, target).path_map == s.path_map,
        s.moved(f, target).curr_player == s.curr_player,
        f.pawn->0.player_id < s.players.len(),
        f.pawn->0.id < 4,
        s.captures(f, target) ==> {
            let hp = s.cell(target).pawn->0;
            &&& !s.players[hp.player_id as int].pawn_at_home(hp.id as int)
            &&& s.captured(s.cell(target)).wf()
            &&& s.captured(s.cell(target)).cell(f.position) == f
            &&& s.captured(s.cell(target)).cell(target) == vacated(s.cell(target))
            &&& s.captured(s.cell(target)).players.len() == s.players.len()
        },
        ({
            let before = if s.captures(f, target) {
                s.captured(s.cell(target))
            } else {
                s
            };
            before.leaves_home(f) ==> before.players[f.pawn->0.player_id as int].pawns_on_board < 4
        }),
{
    assert(s.occupant(f.position) == f.pawn);
    if s.captures(f, target) {
        let victim = s.cell(target);
        let hp = victim.pawn->0;
        assert(s.occupant(target) == Some(hp));
        assert(s.pawn(hp.player_id as int, hp.id as int) == hp);
        assert(victim.position == target);
        assert(f.position != target);
        lemma_capture_wf(s, victim);
        let s1 = s.captured(victim);
        assert(s1.cell(f.position) == s.cell(f.position));
        lemma_relocate_wf(s1, f, target);
    } else if layout_kind(target.0 as int, target.1 as int).is_home() {
        lemma_relocated_effect(s, f, target);
    } else {
        lemma_relocate_wf(s, f, target);
    }
}

} // verus!
