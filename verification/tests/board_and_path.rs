use std::collections::BTreeMap;

use ludo::entities::board::extend_safehouses;
use ludo::entities::board::get_path_map;
use ludo::entities::board::initialize_board;
use ludo::entities::board::reorder_path_map;
use ludo::entities::field::Field;
use ludo::entities::field::FieldKind;
use ludo::entities::pawn::get_color_pallete;
use ludo::entities::pawn::Pawn;
use ludo::entities::pawn::PawnColor;
use ludo::entities::pawn::PawnColorPallet;
use ludo::entities::pawn::Rgb;
use ludo::entities::player::Player;
use ludo::screens::game_main_screen::current_player::CurrentPlayer;
use ludo::screens::game_main_screen::screen::field_diff;
use ludo::screens::game_main_screen::screen::PlayerAction;

#[test]
fn the_board_has_the_fixed_layout() {
    let board = initialize_board();
    let mut counts: BTreeMap<FieldKind, usize> = BTreeMap::new();
    for row in 0..13 {
        for col in 0..13 {
            let field = board[row][col];
            assert_eq!(field.position, (row, col));
            assert_eq!(field.is_visible, field.kind != FieldKind::Gap);
            assert!(!field.is_hovered);
            assert!(field.pawn.is_none());
            *counts.entry(field.kind).or_insert(0) += 1;
        }
    }
    assert_eq!(counts[&FieldKind::Path], 36);
    assert_eq!(counts[&FieldKind::Gap], 169 - 36 - 4 - 16 - 16);
    for kind in [
        FieldKind::RedHome,
        FieldKind::GreenHome,
        FieldKind::BlueHome,
        FieldKind::YellowHome,
        FieldKind::RedSafehouse,
        FieldKind::GreenSafehouse,
        FieldKind::BlueSafehouse,
        FieldKind::YellowSafehouse,
    ] {
        assert_eq!(counts[&kind], 4);
    }
    assert_eq!(board[4][0].kind, FieldKind::RedStart);
    assert_eq!(board[0][8].kind, FieldKind::GreenStart);
    assert_eq!(board[8][12].kind, FieldKind::BlueStart);
    assert_eq!(board[12][4].kind, FieldKind::YellowStart);
    assert_eq!(board[0][0].kind, FieldKind::RedHome);
    assert_eq!(board[1][12].kind, FieldKind::GreenHome);
    assert_eq!(board[11][11].kind, FieldKind::BlueHome);
    assert_eq!(board[12][0].kind, FieldKind::YellowHome);
    assert_eq!(board[6][4].kind, FieldKind::RedSafehouse);
    assert_eq!(board[1][6].kind, FieldKind::GreenSafehouse);
    assert_eq!(board[6][8].kind, FieldKind::BlueSafehouse);
    assert_eq!(board[11][6].kind, FieldKind::YellowSafehouse);
    assert_eq!(board[6][6].kind, FieldKind::Gap);
    assert_eq!(board[5][4].kind, FieldKind::Gap);
    assert_eq!(board[6][0].kind, FieldKind::Path);
    assert_eq!(board[0][6].kind, FieldKind::Path);
}

#[test]
fn the_ring_runs_clockwise_from_reds_entry() {
    let path = get_path_map();
    assert_eq!(path.len(), 40);
    let board = initialize_board();
    let mut seen = Vec::new();
    for slot in 0..40 {
        let (row, col) = path[&slot];
        assert!(matches!(
            board[row][col].kind,
            FieldKind::Path
                | FieldKind::RedStart
                | FieldKind::GreenStart
                | FieldKind::BlueStart
                | FieldKind::YellowStart
        ));
        assert!(!seen.contains(&(row, col)));
        seen.push((row, col));
        let (turned_row, turned_col) = path[&((slot + 10) % 40)];
        assert_eq!((turned_row, turned_col), (col, 12 - row));
    }
    assert_eq!(path[&0], (4, 0));
    assert_eq!(path[&4], (4, 4));
    assert_eq!(path[&5], (3, 4));
    assert_eq!(path[&8], (0, 4));
    assert_eq!(path[&9], (0, 6));
    assert_eq!(path[&10], (0, 8));
    assert_eq!(path[&19], (6, 12));
    assert_eq!(path[&20], (8, 12));
    assert_eq!(path[&29], (12, 6));
    assert_eq!(path[&30], (12, 4));
    assert_eq!(path[&38], (8, 0));
    assert_eq!(path[&39], (6, 0));
}

#[test]
fn safehouses_take_slots_forty_to_forty_three() {
    let path = get_path_map();
    let extended = extend_safehouses(&path, [(6, 1), (6, 2), (6, 3), (6, 4)]);
    assert_eq!(extended.len(), 44);
    assert_eq!(extended[&40], (6, 1));
    assert_eq!(extended[&41], (6, 2));
    assert_eq!(extended[&42], (6, 3));
    assert_eq!(extended[&43], (6, 4));
    for slot in 0..40 {
        assert_eq!(extended[&slot], path[&slot]);
    }
    assert_eq!(path.len(), 40);
    let again = extend_safehouses(&extended, [(1, 6), (2, 6), (3, 6), (4, 6)]);
    assert_eq!(again.len(), 44);
    assert_eq!(again[&40], (1, 6));
    assert_eq!(again[&43], (4, 6));
    let small: BTreeMap<usize, (usize, usize)> = BTreeMap::new();
    assert_eq!(extend_safehouses(&small, [(0, 0), (0, 1), (0, 2), (0, 3)]).len(), 4);
}

#[test]
fn reordering_renumbers_the_ring_by_tens() {
    let path = get_path_map();
    let same = reorder_path_map(&path, 0);
    assert_eq!(same, path);
    let same = reorder_path_map(&path, 4);
    assert_eq!(same, path);
    let same = reorder_path_map(&path, 8);
    assert_eq!(same, path);
    let next = reorder_path_map(&path, 3);
    assert_eq!(next.len(), 40);
    assert_eq!(next[&0], (0, 8));
    assert_eq!(next[&30], (4, 0));
    let across = reorder_path_map(&path, 2);
    assert_eq!(across[&0], (8, 12));
    assert_eq!(across[&20], (4, 0));
    let before = reorder_path_map(&path, 1);
    assert_eq!(before[&0], (12, 4));
    assert_eq!(before[&10], (4, 0));
    let around = reorder_path_map(&path, 5);
    assert_eq!(around, before);
    let mut few: BTreeMap<usize, (usize, usize)> = BTreeMap::new();
    few.insert(3, (4, 3));
    few.insert(35, (8, 3));
    let turned = reorder_path_map(&few, 3);
    assert_eq!(turned.len(), 2);
    assert_eq!(turned[&33], (4, 3));
    assert_eq!(turned[&25], (8, 3));
    let turned = reorder_path_map(&few, 1);
    assert_eq!(turned[&13], (4, 3));
    assert_eq!(turned[&5], (8, 3));
    assert_eq!(reorder_path_map(&BTreeMap::new(), 3).len(), 0);
}

#[test]
fn field_diff_counts_forward_along_the_path() {
    for slot in 0..44 {
        assert_eq!(field_diff(slot, slot), 0);
    }
    for from in 0..44 {
        for roll in 1..=6 {
            if from + roll < 44 {
                assert_eq!(field_diff((from + roll) % 44, from), roll);
            }
        }
    }
    assert_eq!(field_diff(9, 5), 4);
    assert_eq!(field_diff(42, 38), 4);
    assert_eq!(field_diff(2, 38), 4);
    assert_eq!(field_diff(0, 39), 1);
    assert_eq!(field_diff(5, 9), 36);
    assert_eq!(field_diff(1, 43), 42);
    assert_eq!(field_diff(0, 41), 43);
    assert_eq!(field_diff(100, 6), 6);
    assert_eq!(field_diff(0, 84), 0);
    assert_eq!(field_diff(0, 85), 43);
}

#[test]
fn players_get_the_cells_of_their_colour() {
    let red = Player::new(0, 7, PawnColor::RED);
    assert_eq!(red.id, 0);
    assert_eq!(red.order, 7);
    assert_eq!(red.pawn_color, PawnColor::RED);
    assert_eq!(red.pawns_on_board, 0);
    assert_eq!(red.start_pos, (4, 0));
    assert_eq!(red.home_pos, [(0, 0), (0, 1), (1, 0), (1, 1)]);
    assert_eq!(red.safehouse_pos, [(6, 1), (6, 2), (6, 3), (6, 4)]);
    assert_eq!(red.home_field_kind, FieldKind::RedHome);
    assert_eq!(red.start_field_kind, FieldKind::RedStart);
    assert_eq!(red.safehouse_kind, FieldKind::RedSafehouse);

    let green = Player::new(1, 0, PawnColor::GREEN);
    assert_eq!(green.start_pos, (0, 8));
    assert_eq!(green.home_pos, [(0, 11), (0, 12), (1, 11), (1, 12)]);
    assert_eq!(green.safehouse_pos, [(1, 6), (2, 6), (3, 6), (4, 6)]);
    assert_eq!(green.home_field_kind, FieldKind::GreenHome);
    assert_eq!(green.start_field_kind, FieldKind::GreenStart);
    assert_eq!(green.safehouse_kind, FieldKind::GreenSafehouse);

    let blue = Player::new(2, 0, PawnColor::BLUE);
    assert_eq!(blue.start_pos, (8, 12));
    assert_eq!(blue.home_pos, [(11, 11), (11, 12), (12, 11), (12, 12)]);
    assert_eq!(blue.safehouse_pos, [(6, 11), (6, 10), (6, 9), (6, 8)]);
    assert_eq!(blue.home_field_kind, FieldKind::BlueHome);
    assert_eq!(blue.start_field_kind, FieldKind::BlueStart);
    assert_eq!(blue.safehouse_kind, FieldKind::BlueSafehouse);

    let mut yellow = Player::new(3, 0, PawnColor::YELLOW);
    assert_eq!(yellow.start_pos, (12, 4));
    assert_eq!(yellow.home_pos, [(11, 0), (11, 1), (12, 0), (12, 1)]);
    assert_eq!(yellow.safehouse_pos, [(11, 6), (10, 6), (9, 6), (8, 6)]);
    assert_eq!(yellow.home_field_kind, FieldKind::YellowHome);
    assert_eq!(yellow.start_field_kind, FieldKind::YellowStart);
    assert_eq!(yellow.safehouse_kind, FieldKind::YellowSafehouse);
    for (k, pawn) in yellow.pawns.iter().enumerate() {
        assert_eq!(pawn.id, k);
        assert_eq!(pawn.player_id, 3);
        assert_eq!(pawn.color, PawnColor::YELLOW);
        assert_eq!(pawn.position, yellow.home_pos[k]);
        assert_eq!(pawn.color_pallete, get_color_pallete(&PawnColor::YELLOW));
    }
    yellow.set_order(2);
    assert_eq!(yellow.order, 2);
    assert_eq!(yellow.id, 3);
    assert_eq!(yellow.get_pawn(2).position, (12, 0));

    let board = initialize_board();
    for player in [red, green, blue, yellow] {
        assert_eq!(board[player.start_pos.0][player.start_pos.1].kind, player.start_field_kind);
        for k in 0..4 {
            let (row, col) = player.home_pos[k];
            assert_eq!(board[row][col].kind, player.home_field_kind);
            let (row, col) = player.safehouse_pos[k];
            assert_eq!(board[row][col].kind, player.safehouse_kind);
        }
    }
}

#[test]
fn pawns_and_fields_hold_what_they_are_given() {
    let pawn = Pawn::new(2, PawnColor::BLUE, 1, (8, 12));
    assert_eq!(pawn.id, 2);
    assert_eq!(pawn.color, PawnColor::BLUE);
    assert_eq!(pawn.player_id, 1);
    assert_eq!(pawn.position, (8, 12));
    assert_eq!(pawn.color_pallete.primary, Rgb { r: 0, g: 0, b: 255 });
    assert_eq!(pawn.color_pallete.hovered, Rgb { r: 0, g: 0, b: 139 });
    assert_eq!(
        get_color_pallete(&PawnColor::RED),
        PawnColorPallet::new(
            Rgb { r: 255, g: 0, b: 0 },
            Rgb { r: 139, g: 0, b: 0 },
            Rgb { r: 139, g: 0, b: 0 }
        )
    );
    assert_eq!(get_color_pallete(&PawnColor::GREEN).disabled, Rgb { r: 1, g: 50, b: 32 });
    assert_eq!(get_color_pallete(&PawnColor::YELLOW).hovered, Rgb { r: 246, g: 190, b: 0 });
    assert_eq!(Pawn::default().position, (0, 0));
    assert_eq!(Pawn::default().color, PawnColor::RED);

    let mut field = Field::new(FieldKind::Path, true, false, Some(pawn));
    assert_eq!(field.position, (0, 0));
    assert_eq!(field.kind, FieldKind::Path);
    assert!(field.is_visible);
    assert!(!field.is_hovered);
    assert_eq!(field.pawn, Some(pawn));
    field.set_position((8, 12));
    assert_eq!(field.position, (8, 12));
    assert_eq!(field.kind, FieldKind::Path);
    assert_eq!(field.pawn, Some(pawn));
}

#[test]
fn colours_differ_by_their_place_round_the_board() {
    assert_eq!(PawnColor::RED.ordinal(), 0);
    assert_eq!(PawnColor::GREEN.ordinal(), 1);
    assert_eq!(PawnColor::BLUE.ordinal(), 2);
    assert_eq!(PawnColor::YELLOW.ordinal(), 3);
    assert_eq!(PawnColor::YELLOW - PawnColor::RED, 3);
    assert_eq!(PawnColor::RED - PawnColor::YELLOW, -3);
    assert_eq!(PawnColor::GREEN - PawnColor::GREEN, 0);
    assert_eq!(PawnColor::GREEN - PawnColor::BLUE, -1);
    assert_eq!(PawnColor::RED.to_string(), "RED");
    assert_eq!(PawnColor::YELLOW.to_string(), "YELLOW");
}

#[test]
fn the_cursor_starts_afresh_each_turn() {
    let mut cursor = CurrentPlayer::new();
    assert_eq!(cursor.id, 0);
    assert_eq!(cursor.player_action, PlayerAction::WaitingRoll);
    assert_eq!(cursor.selected_pawn_id, None);
    assert_eq!(cursor.roll, None);
    assert!(!cursor.can_hover());
    assert_eq!(cursor.diff_from_roll(9), 0);
    cursor.id = 2;
    cursor.roll = Some(5);
    cursor.selected_pawn_id = Some(1);
    cursor.player_action = PlayerAction::Playing;
    cursor.curr_hover_flat = 17;
    cursor.curr_hover_position = (4, 11);
    assert!(cursor.can_hover());
    assert_eq!(cursor.diff_from_roll(9), 4);
    assert_eq!(cursor.diff_from_roll(2), 3);
    assert_eq!(cursor.diff_from_roll(5), 0);
    assert_eq!(cursor.diff_from_roll(50), 1);
    let next = CurrentPlayer::next(&cursor, Player::new(2, 0, PawnColor::BLUE));
    assert_eq!(next.id, 2);
    assert_eq!(next.roll, None);
    assert_eq!(next.selected_pawn_id, None);
    assert_eq!(next.player_action, PlayerAction::WaitingRoll);
    assert_eq!(next.curr_hover_flat, 17);
    assert_eq!(next.curr_hover_position, (4, 11));
    cursor.repeat_turn();
    assert_eq!(cursor.id, 2);
    assert_eq!(cursor.roll, None);
    assert_eq!(cursor.selected_pawn_id, None);
    assert_eq!(cursor.player_action, PlayerAction::WaitingRoll);
    assert_eq!(cursor.curr_hover_flat, 17);
    assert_eq!(PlayerAction::Hovering.rank(), 3);
    assert_eq!(PlayerAction::Rolled.to_string(), "Rolled");
}
