use std::collections::BTreeMap;
use vstd::arithmetic::div_mod::lemma_fundamental_div_mod;
use vstd::arithmetic::div_mod::lemma_mod_multiples_vanish;
use vstd::prelude::*;

use super::field::Field;
use super::field::FieldKind;

verus! {

/// The cell of ring slot `k`, counted clockwise from red's entry cell at row 4, column 0.
pub open spec fn ring_pos(k: int) -> (usize, usize) {
    if k < 5 {
        (4, k as usize)
    } else if k < 9 {
        ((8 - k) as usize, 4)
    } else if k == 9 {
        (0, 6)
    } else if k < 15 {
        ((k - 10) as usize, 8)
    } else if k < 19 {
        (4, (k - 6) as usize)
    } else if k == 19 {
        (6, 12)
    } else if k < 25 {
        (8, (32 - k) as usize)
    } else if k < 29 {
        ((k - 16) as usize, 8)
    } else if k == 29 {
        (12, 6)
    } else if k < 35 {
        ((42 - k) as usize, 4)
    } else if k < 39 {
        (8, (38 - k) as usize)
    } else {
        (6, 0)
    }
}

/// The ring as a map from slot to cell.
pub open spec fn ring_map() -> Map<usize, (usize, usize)> {
    Map::new(|k: usize| k < 40, |k: usize| ring_pos(k as int))
}

/// The cell at row `i`, column `j` lies on the ring.
pub open spec fn on_ring(i: int, j: int) -> bool {
    ||| (i == 4 || i == 8) && (j <= 4 || j >= 8)
    ||| (j == 4 || j == 8) && (i <= 4 || i >= 8)
    ||| (i == 0 || i == 12) && j == 6
    ||| (j == 0 || j == 12) && i == 6
}

/// The kind of the cell at row `i`, column `j` of the thirteen by thirteen grid: a resting
/// block in each corner, the ring with one entry cell per colour, and from the middle of
/// each side an arm of four final cells towards the centre.
pub open spec fn layout_kind(i: int, j: int) -> FieldKind {
    if i <= 1 && j <= 1 {
        FieldKind::RedHome
    } else if i <= 1 && j >= 11 {
        FieldKind::GreenHome
    } else if i >= 11 && j >= 11 {
        FieldKind::BlueHome
    } else if i >= 11 && j <= 1 {
        FieldKind::YellowHome
    } else if i == 4 && j == 0 {
        FieldKind::RedStart
    } else if i == 0 && j == 8 {
        FieldKind::GreenStart
    } else if i == 8 && j == 12 {
        FieldKind::BlueStart
    } else if i == 12 && j == 4 {
        FieldKind::YellowStart
    } else if i == 6 && 1 <= j <= 4 {
        FieldKind::RedSafehouse
    } else if j == 6 && 1 <= i <= 4 {
        FieldKind::GreenSafehouse
    } else if i == 6 && 8 <= j <= 11 {
        FieldKind::BlueSafehouse
    } else if j == 6 && 8 <= i <= 11 {
        FieldKind::YellowSafehouse
    } else if on_ring(i, j) {
        FieldKind::Path
    } else {
        FieldKind::Gap
    }
}

/// The field at row `i`, column `j` of an empty board.
pub open spec fn layout_field(i: int, j: int) -> Field {
    Field {
        is_visible: layout_kind(i, j) != FieldKind::Gap,
        is_hovered: false,
        kind: layout_kind(i, j),
        pawn: None,
        position: (i as usize, j as usize),
    }
}

/// The kind marks a cell of the ring: plain path or the entry cell of a colour.
pub open spec fn is_ring_kind(kind: FieldKind) -> bool {
    kind == FieldKind::Path || kind == FieldKind::RedStart || kind == FieldKind::GreenStart || kind
        == FieldKind::BlueStart || kind == FieldKind::YellowStart
}

/// Every slot of the ring is a cell of the grid that the layout marks as ring.
pub proof fn lemma_ring_cell(k: int)
    requires
        0 <= k < 40,
    ensures
        ring_pos(k).0 < 13,
        ring_pos(k).1 < 13,
        is_ring_kind(layout_kind(ring_pos(k).0 as int, ring_pos(k).1 as int)),
{
}

/// Where ring slot `k` lands when the frame turns by `offset`: ten slots further on for
/// each step of `offset`, round the ring of forty.
pub open spec fn rotated_slot(k: int, offset: int) -> int {
    (k + 10 * offset) % 40
}

/// Four steps are a whole turn: only what `offset` leaves on division by four counts.
pub proof fn lemma_whole_turns(k: int, offset: int)
    requires
        0 <= offset,
    ensures
        rotated_slot(k, offset) == (k + 10 * (offset % 4)) % 40,
{
    let q = offset / 4;
    let r = offset % 4;
    lemma_fundamental_div_mod(offset, 4);
    assert(k + 10 * offset == 40 * q + (k + 10 * r));
    lemma_mod_multiples_vanish(q, k + 10 * r, 40);
}

/// `after` holds the entries of `before`, each under its rotated slot, and nothing else.
pub open spec fn is_rotation_of(
    after: Map<usize, (usize, usize)>,
    before: Map<usize, (usize, usize)>,
    offset: int,
) -> bool {
    &&& forall|k: usize| #[trigger]
        before.contains_key(k) ==> after.contains_key(rotated_slot(k as int, offset) as usize)
            && after[rotated_slot(k as int, offset) as usize] == before[k]
    &&& forall|n: usize| #[trigger]
        after.contains_key(n) ==> exists|k: usize| #[trigger]
            before.contains_key(k) && rotated_slot(k as int, offset) == n
}

/// Turning by whole turns renumbers nothing.
pub proof fn lemma_whole_turn_is_identity(
    after: Map<usize, (usize, usize)>,
    before: Map<usize, (usize, usize)>,
    offset: int,
)
    requires
        0 <= offset,
        offset % 4 == 0,
        forall|k: usize| before.contains_key(k) ==> k < 40,
        is_rotation_of(after, before, offset),
    ensures
        after == before,
{
    assert forall|k: usize| before.contains_key(k) implies #[trigger] after.contains_key(k)
        && after[k] == before[k] by {
        lemma_whole_turns(k as int, offset);
        assert(rotated_slot(k as int, offset) as usize == k);
    }
    assert forall|n: usize| after.contains_key(n) implies #[trigger] before.contains_key(n) by {
        let k = choose|k: usize| #[trigger]
            before.contains_key(k) && rotated_slot(k as int, offset) == n;
        lemma_whole_turns(k as int, offset);
    }
    assert(after =~= before);
}

/// `path_map` with slots 40 to 43 set to the four given cells, in their order.
pub open spec fn with_safehouses(
    path_map: Map<usize, (usize, usize)>,
    cells: Seq<(usize, usize)>,
) -> Map<usize, (usize, usize)> {
    path_map.insert(40, cells[0]).insert(41, cells[1]).insert(42, cells[2]).insert(43, cells[3])
}

/// Renumbers the ring slots of `path_map` for a frame turned by `offset`: an offset of
/// nought, or of any number of whole turns, leaves the map as it is.
pub fn reorder_path_map(path_map: &BTreeMap<usize, (usize, usize)>, offset: usize) -> (rotated:
    BTreeMap<usize, (usize, usize)>)
    requires
        forall|k: usize| path_map@.contains_key(k) ==> k < 40,
    ensures
        is_rotation_of(rotated@, path_map@, offset as int),
        offset % 4 == 0 ==> rotated@ == path_map@,
{
    let mut rotated: BTreeMap<usize, (usize, usize)> = BTreeMap::new();
    let shift: usize = 10 * (offset % 4);
    let mut key: usize = 0;
    while key < 40
        invariant
            key <= 40,
            shift == 10 * (offset % 4),
            forall|k: usize| path_map@.contains_key(k) ==> k < 40,
            forall|k: usize| #[trigger]
                path_map@.contains_key(k) && k < key ==> rotated@.contains_key(
                    rotated_slot(k as int, offset as int) as usize,
                ) && rotated@[rotated_slot(k as int, offset as int) as usize] == path_map@[k],
            forall|n: usize| #[trigger]
                rotated@.contains_key(n) ==> exists|k: usize| #[trigger]
                    path_map@.contains_key(k) && k < key && rotated_slot(k as int, offset as int)
                        == n,
        decreases 40 - key,
    {
        match path_map.get(&key) {
            Some(cell) => {
                let slot: usize = (key + shift) % 40;
                let ghost before = rotated@;
                rotated.insert(slot, *cell);
                proof {
                    lemma_whole_turns(key as int, offset as int);
                    assert forall|k: usize| k < key implies rotated_slot(k as int, offset as int)
                        != rotated_slot(key as int, offset as int) by {
                        lemma_whole_turns(k as int, offset as int);
                    }
                    assert forall|k: usize| #[trigger]
                        path_map@.contains_key(k) && k < key + 1 implies rotated@.contains_key(
                        rotated_slot(k as int, offset as int) as usize,
                    ) && rotated@[rotated_slot(k as int, offset as int) as usize]
                        == path_map@[k] by {
                        if k < key {
                            assert(rotated_slot(k as int, offset as int) != rotated_slot(
                                key as int,
                                offset as int,
                            ));
                        }
                    }
                    assert forall|n: usize| #[trigger] rotated@.contains_key(n) implies exists|
                        k: usize,
                    | #[trigger]
                        path_map@.contains_key(k) && k < key + 1 && rotated_slot(
                            k as int,
                            offset as int,
                        ) == n by {
                        if n == slot {
                            assert(path_map@.contains_key(key) && rotated_slot(
                                key as int,
                                offset as int,
                            ) == n);
                        } else {
                            assert(before.contains_key(n));
                        }
                    }
                }
            },
            None => {},
        }
        key += 1;
    }
    proof {
        if offset % 4 == 0 {
            lemma_whole_turn_is_identity(rotated@, path_map@, offset as int);
        }
    }
    rotated
}

/// Appends the four final cells of a colour to a path map, as slots 40 to 43.
pub fn extend_safehouses(
    path_map: &BTreeMap<usize, (usize, usize)>,
    safehouses_pos: [(usize, usize); 4],
) -> (extended: BTreeMap<usize, (usize, usize)>)
    ensures
        extended@ == with_safehouses(path_map@, safehouses_pos@),
{
    let mut extended = path_map.clone();
    extended.insert(40, safehouses_pos[0]);
    extended.insert(41, safehouses_pos[1]);
    extended.insert(42, safehouses_pos[2]);
    extended.insert(43, safehouses_pos[3]);
    extended
}

/// The ring in red's frame: slot 0 is red's entry cell.
pub fn get_path_map() -> (path_map: BTreeMap<usize, (usize, usize)>)
    ensures
        path_map@ == ring_map(),
{
    let mut m: BTreeMap<usize, (usize, usize)> = BTreeMap::new();
    m.insert(0, (4, 0));
    m.insert(1, (4, 1));
    m.insert(2, (4, 2));
    m.insert(3, (4, 3));
    m.insert(4, (4, 4));
    m.insert(5, (3, 4));
    m.insert(6, (2, 4));
    m.insert(7, (1, 4));
    m.insert(8, (0, 4));
    m.insert(9, (0, 6));
    m.insert(10, (0, 8));
    m.insert(11, (1, 8));
    m.insert(12, (2, 8));
    m.insert(13, (3, 8));
    m.insert(14, (4, 8));
    m.insert(15, (4, 9));
    m.insert(16, (4, 10));
    m.insert(17, (4, 11));
    m.insert(18, (4, 12));
    m.insert(19, (6, 12));
    m.insert(20, (8, 12));
    m.insert(21, (8, 11));
    m.insert(22, (8, 10));
    m.insert(23, (8, 9));
    m.insert(24, (8, 8));
    m.insert(25, (9, 8));
    m.insert(26, (10, 8));
    m.insert(27, (11, 8));
    m.insert(28, (12, 8));
    m.insert(29, (12, 6));
    m.insert(30, (12, 4));
    m.insert(31, (11, 4));
    m.insert(32, (10, 4));
    m.insert(33, (9, 4));
    m.insert(34, (8, 4));
    m.insert(35, (8, 3));
    m.insert(36, (8, 2));
    m.insert(37, (8, 1));
    m.insert(38, (8, 0));
    m.insert(39, (6, 0));
    assert(m@ =~= ring_map());
    m
}

/// The empty board: every cell with its kind and its own coordinates.
pub fn initialize_board() -> (board: [[Field; 13]; 13])
    ensures
        forall|i: int, j: int|
            0 <= i < 13 && 0 <= j < 13 ==> #[trigger] board[i][j] == layout_field(i, j),
{
    let mut board = [
        [
            Field::new(FieldKind::RedHome, true, false, None),
            Field::new(FieldKind::RedHome, true, false, None),
            Field::new(FieldKind::Gap, false, false, None),
            Field::new(FieldKind::Gap, false, false, None),
            Field::new(FieldKind::Path, true, false, None),
            Field::new(FieldKind::Gap, false, false, None),
            Field::new(FieldKind::Path, true, false, None),
            Field::new(FieldKind::Gap, false, false, None),
            Field::new(FieldKind::GreenStart, true, false, None),
            Field::new(FieldKind::Gap, false, false, None),
            Field::new(FieldKind::Gap, false, false, None),
            Field::new(FieldKind::GreenHome, true, false, None),
            Field::new(FieldKind::GreenHome, true, false, None),
        ],
        [
            Field::new(FieldKind::RedHome, true, false, None),
            Field::new(FieldKind::RedHome, true, false, None),
            Field::new(FieldKind::Gap, false, false, None),
            Field::new(FieldKind::Gap, false, false, None),
            Field::new(FieldKind::Path, true, false, None),
            Field::new(FieldKind::Gap, false, false, None),
            Field::new(FieldKind::GreenSafehouse, true, false, None),
            Field::new(FieldKind::Gap, false, false, None),
            Field::new(FieldKind::Path, true, false, None),
            Field::new(FieldKind::Gap, false, false, None),
            Field::new(FieldKind::Gap, false, false, None),
            Field::new(FieldKind::GreenHome, true, false, None),
            Field::new(FieldKind::GreenHome, true, false, None),
        ],
        [
            Field::new(FieldKind::Gap, false, false, None),
            Field::new(FieldKind::Gap, false, false, None),
            Field::new(FieldKind::Gap, false, false, None),
            Field::new(FieldKind::Gap, false, false, None),
            Field::new(FieldKind::Path, true, false, None),
            Field::new(FieldKind::Gap, false, false, None),
            Field::new(FieldKind::GreenSafehouse, true, false, None),
            Field::new(FieldKind::Gap, false, false, None),
            Field::new(FieldKind::Path, true, false, None),
            Field::new(FieldKind::Gap, false, false, None),
            Field::new(FieldKind::Gap, false, false, None),
            Field::new(FieldKind::Gap, false, false, None),
            Field::new(FieldKind::Gap, false, false, None),
        ],
        [
            Field::new(FieldKind::Gap, false, false, None),
            Field::new(FieldKind::Gap, false, false, None),
            Field::new(FieldKind::Gap, false, false, None),
            Field::new(FieldKind::Gap, false, false, None),
            Field::new(FieldKind::Path, true, false, None),
            Field::new(FieldKind::Gap, false, false, None),
            Field::new(FieldKind::GreenSafehouse, true, false, None),
            Field::new(FieldKind::Gap, false, false, None),
            Field::new(FieldKind::Path, true, false, None),
            Field::new(FieldKind::Gap, false, false, None),
            Field::new(FieldKind::Gap, false, false, None),
            Field::new(FieldKind::Gap, false, false, None),
            Field::new(FieldKind::Gap, false, false, None),
        ],
        [
            Field::new(FieldKind::RedStart, true, false, None),
            Field::new(FieldKind::Path, true, false, None),
            Field::new(FieldKind::Path, true, false, None),
            Field::new(FieldKind::Path, true, false, None),
            Field::new(FieldKind::Path, true, false, None),
            Field::new(FieldKind::Gap, false, false, None),
            Field::new(FieldKind::GreenSafehouse, true, false, None),
            Field::new(FieldKind::Gap, false, false, None),
            Field::new(FieldKind::Path, true, false, None),
            Field::new(FieldKind::Path, true, false, None),
            Field::new(FieldKind::Path, true, false, None),
            Field::new(FieldKind::Path, true, false, None),
            Field::new(FieldKind::Path, true, false, None),
        ],
        [
            Field::new(FieldKind::Gap, false, false, None),
            Field::new(FieldKind::Gap, false, false, None),
            Field::new(FieldKind::Gap, false, false, None),
            Field::new(FieldKind::Gap, false, false, None),
            Field::new(FieldKind::Gap, false, false, None),
            Field::new(FieldKind::Gap, false, false, None),
            Field::new(FieldKind::Gap, false, false, None),
            Field::new(FieldKind::Gap, false, false, None),
            Field::new(FieldKind::Gap, false, false, None),
            Field::new(FieldKind::Gap, false, false, None),
            Field::new(FieldKind::Gap, false, false, None),
            Field::new(FieldKind::Gap, false, false, None),
            Field::new(FieldKind::Gap, false, false, None),
        ],
        [
            Field::new(FieldKind::Path, true, false, None),
            Field::new(FieldKind::RedSafehouse, true, false, None),
            Field::new(FieldKind::RedSafehouse, true, false, None),
            Field::new(FieldKind::RedSafehouse, true, false, None),
            Field::new(FieldKind::RedSafehouse, true, false, None),
            Field::new(FieldKind::Gap, false, false, None),
            Field::new(FieldKind::Gap, false, false, None),
            Field::new(FieldKind::Gap, false, false, None),
            Field::new(FieldKind::BlueSafehouse, true, false, None),
            Field::new(FieldKind::BlueSafehouse, true, false, None),
            Field::new(FieldKind::BlueSafehouse, true, false, None),
            Field::new(FieldKind::BlueSafehouse, true, false, None),
            Field::new(FieldKind::Path, true, false, None),
        ],
        [
            Field::new(FieldKind::Gap, false, false, None),
            Field::new(FieldKind::Gap, false, false, None),
            Field::new(FieldKind::Gap, false, false, None),
            Field::new(FieldKind::Gap, false, false, None),
            Field::new(FieldKind::Gap, false, false, None),
            Field::new(FieldKind::Gap, false, false, None),
            Field::new(FieldKind::Gap, false, false, None),
            Field::new(FieldKind::Gap, false, false, None),
            Field::new(FieldKind::Gap, false, false, None),
            Field::new(FieldKind::Gap, false, false, None),
            Field::new(FieldKind::Gap, false, false, None),
            Field::new(FieldKind::Gap, false, false, None),
            Field::new(FieldKind::Gap, false, false, None),
        ],
        [
            Field::new(FieldKind::Path, true, false, None),
            Field::new(FieldKind::Path, true, false, None),
            Field::new(FieldKind::Path, true, false, None),
            Field::new(FieldKind::Path, true, false, None),
            Field::new(FieldKind::Path, true, false, None),
            Field::new(FieldKind::Gap, false, false, None),
            Field::new(FieldKind::YellowSafehouse, true, false, None),
            Field::new(FieldKind::Gap, false, false, None),
            Field::new(FieldKind::Path, true, false, None),
            Field::new(FieldKind::Path, true, false, None),
            Field::new(FieldKind::Path, true, false, None),
            Field::new(FieldKind::Path, true, false, None),
            Field::new(FieldKind::BlueStart, true, false, None),
        ],
        [
            Field::new(FieldKind::Gap, false, false, None),
            Field::new(FieldKind::Gap, false, false, None),
            Field::new(FieldKind::Gap, false, false, None),
            Field::new(FieldKind::Gap, false, false, None),
            Field::new(FieldKind::Path, true, false, None),
            Field::new(FieldKind::Gap, false, false, None),
            Field::new(FieldKind::YellowSafehouse, true, false, None),
            Field::new(FieldKind::Gap, false, false, None),
            Field::new(FieldKind::Path, true, false, None),
            Field::new(FieldKind::Gap, false, false, None),
            Field::new(FieldKind::Gap, false, false, None),
            Field::new(FieldKind::Gap, false, false, None),
            Field::new(FieldKind::Gap, false, false, None),
        ],
        [
            Field::new(FieldKind::Gap, false, false, None),
            Field::new(FieldKind::Gap, false, false, None),
            Field::new(FieldKind::Gap, false, false, None),
            Field::new(FieldKind::Gap, false, false, None),
            Field::new(FieldKind::Path, true, false, None),
            Field::new(FieldKind::Gap, false, false, None),
            Field::new(FieldKind::YellowSafehouse, true, false, None),
            Field::new(FieldKind::Gap, false, false, None),
            Field::new(FieldKind::Path, true, false, None),
            Field::new(FieldKind::Gap, false, false, None),
            Field::new(FieldKind::Gap, false, false, None),
            Field::new(FieldKind::Gap, false, false, None),
            Field::new(FieldKind::Gap, false, false, None),
        ],
        [
            Field::new(FieldKind::YellowHome, true, false, None),
            Field::new(FieldKind::YellowHome, true, false, None),
            Field::new(FieldKind::Gap, false, false, None),
            Field::new(FieldKind::Gap, false, false, None),
            Field::new(FieldKind::Path, true, false, None),
            Field::new(FieldKind::Gap, false, false, None),
            Field::new(FieldKind::YellowSafehouse, true, false, None),
            Field::new(FieldKind::Gap, false, false, None),
            Field::new(FieldKind::Path, true, false, None),
            Field::new(FieldKind::Gap, false, false, None),
            Field::new(FieldKind::Gap, false, false, None),
            Field::new(FieldKind::BlueHome, true, false, None),
            Field::new(FieldKind::BlueHome, true, false, None),
        ],
        [
            Field::new(FieldKind::YellowHome, true, false, None),
            Field::new(FieldKind::YellowHome, true, false, None),
            Field::new(FieldKind::Gap, false, false, None),
            Field::new(FieldKind::Gap, false, false, None),
            Field::new(FieldKind::YellowStart, true, false, None),
            Field::new(FieldKind::Gap, false, false, None),
            Field::new(FieldKind::Path, true, false, None),
            Field::new(FieldKind::Gap, false, false, None),
            Field::new(FieldKind::Path, true, false, None),
            Field::new(FieldKind::Gap, false, false, None),
            Field::new(FieldKind::Gap, false, false, None),
            Field::new(FieldKind::BlueHome, true, false, None),
            Field::new(FieldKind::BlueHome, true, false, None),
        ],
    ];
    let ghost unplaced = board;
    assert forall|i: int, j: int| 0 <= i < 13 && 0 <= j < 13 implies #[trigger] unplaced[i][j] == (
    Field { position: (0usize, 0usize), ..layout_field(i, j) }) by {
        assert(unplaced[i]@.len() == 13);
    }

    let mut i: usize = 0;
    while i < 13
        invariant
            i <= 13,
            forall|a: int, b: int|
                0 <= a < i && 0 <= b < 13 ==> #[trigger] board[a][b] == layout_field(a, b),
            forall|a: int, b: int|
                i <= a < 13 && 0 <= b < 13 ==> #[trigger] board[a][b] == unplaced[a][b],
            forall|a: int, b: int|
                0 <= a < 13 && 0 <= b < 13 ==> #[trigger] unplaced[a][b] == (Field {
                    position: (0usize, 0usize),
                    ..layout_field(a, b)
                }),
        decreases 13 - i,
    {
        let mut j: usize = 0;
        while j < 13
            invariant
                i < 13,
                j <= 13,
                forall|a: int, b: int|
                    0 <= a < i && 0 <= b < 13 ==> #[trigger] board[a][b] == layout_field(a, b),
                forall|a: int, b: int|
                    i < a < 13 && 0 <= b < 13 ==> #[trigger] board[a][b] == unplaced[a][b],
                forall|b: int| 0 <= b < j ==> #[trigger] board[i as int][b] == layout_field(i as int, b),
                forall|b: int| j <= b < 13 ==> #[trigger] board[i as int][b] == unplaced[i as int][b],
                forall|a: int, b: int|
                    0 <= a < 13 && 0 <= b < 13 ==> #[trigger] unplaced[a][b] == (Field {
                        position: (0usize, 0usize),
                        ..layout_field(a, b)
                    }),
            decreases 13 - j,
        {
            board[i][j].set_position((i, j));
            j += 1;
        }
        i += 1;
    }

    board
}

} // verus!
