use ludo::app::App;
use ludo::entities::field::Field;
use ludo::entities::field::FieldKind;
use ludo::entities::pawn::PawnColor;
use ludo::entities::player::Player;
use ludo::event::KeyInput;
use ludo::screens::game_main_screen::event_handler::MainEventHandler;
use ludo::screens::game_main_screen::move_type::BadMoveType;
use ludo::screens::game_main_screen::move_type::GoodMoveType;
use ludo::screens::game_main_screen::move_type::NoValidMoveType;
use ludo::screens::game_main_screen::screen::GameMainScreen;
use ludo::screens::game_main_screen::screen::GameState;
use ludo::screens::game_main_screen::screen::HoverDir;
use ludo::screens::game_main_screen::screen::PlayerAction;
use ludo::screens::game_main_screen::screen::RelativeMove;

fn two_player_game() -> GameMainScreen {
    let players = vec![Player::new(0, 1, PawnColor::RED), Player::new(1, 2, PawnColor::YELLOW)];
    let mut game = GameMainScreen::new(players, &Vec::new());
    game.state = GameState::RUNNING;
    game
}

/// Puts pawn `pawn` of player `player` on the cell at `pos`, keeping the board, the
/// player's array and the count of pawns on the board in step.
fn place(game: &mut GameMainScreen, player: usize, pawn: usize, pos: (usize, usize)) {
    let mut moved = game.players[player].pawns[pawn];
    let from = moved.position;
    let home = game.players[player].home_pos[pawn];
    let left = Field { pawn: None, ..game.board[from.0][from.1] };
    game.update_field(left);
    moved.position = pos;
    let reached = Field { pawn: Some(moved), ..game.board[pos.0][pos.1] };
    game.update_field(reached);
    if from == home && pos != home {
        game.players[player].pawns_on_board += 1;
    }
    if from != home && pos == home {
        game.players[player].pawns_on_board -= 1;
    }
}

/// Every pawn stands where its position says, and every pawn on the board is the one
/// that its owner holds.
fn assert_in_step(game: &GameMainScreen) {
    assert!(game.is_reachable());
    for (p, player) in game.players.iter().enumerate() {
        let mut away = 0;
        for (k, pawn) in player.pawns.iter().enumerate() {
            let (row, col) = pawn.position;
            assert_eq!(game.board[row][col].pawn, Some(*pawn));
            assert_eq!(game.board[row][col].pawn.unwrap().position, pawn.position);
            assert_eq!(pawn.id, k);
            assert_eq!(pawn.player_id, p);
            if pawn.position != player.home_pos[k] {
                away += 1;
            }
        }
        assert_eq!(player.pawns_on_board, away);
    }
    let mut on_board = 0;
    for row in 0..13 {
        for col in 0..13 {
            assert_eq!(game.board[row][col].position, (row, col));
            if let Some(pawn) = game.board[row][col].pawn {
                on_board += 1;
                assert_eq!(pawn.position, (row, col));
                assert_eq!(game.players[pawn.player_id].pawns[pawn.id], pawn);
            }
        }
    }
    assert_eq!(on_board, 4 * game.players.len());
}

#[test]
fn a_new_match_has_every_pawn_at_rest() {
    let game = GameMainScreen::new(
        vec![Player::new(0, 1, PawnColor::RED), Player::new(1, 2, PawnColor::YELLOW)],
        &Vec::new(),
    );
    assert_in_step(&game);
    assert_eq!(game.state, GameState::PAUSED);
    assert_eq!(game.message, "Press SPACE to roll the dice!");
    assert_eq!(game.playing_colors, vec![PawnColor::RED, PawnColor::YELLOW]);
    assert!(!game.is_game_finished);
    assert!(game.game_winner.is_none());
    assert_eq!(game.path_map.len(), 44);
    assert_eq!(game.path_map[&0], (4, 0));
    assert_eq!(game.path_map[&40], (6, 1));
    assert_eq!(game.path_map[&43], (6, 4));
    assert_eq!(game.curr_player.id, 0);
    assert_eq!(game.curr_player.curr_hover_position, (4, 0));
    assert_eq!(game.curr_player.curr_hover_flat, 0);
    assert!(game.board[4][0].is_hovered);
    assert_eq!(game.board[0][0].pawn, Some(game.players[0].pawns[0]));
    assert_eq!(game.board[12][1].pawn, Some(game.players[1].pawns[3]));
    assert!(game.board[0][11].pawn.is_none());
}

#[test]
fn red_enters_the_ring_with_a_six() {
    let mut game = two_player_game();
    let mut app = App::new();
    MainEventHandler::handle_roll(&mut game, Some(6));
    assert_eq!(game.curr_player.player_action, PlayerAction::Selecting);
    assert_eq!(game.message, "You rolled a 6!  \n\n Press numbers 1-4 to select your pawn.");
    game.handle_key_event(KeyInput::Char('1'), &mut app, &Vec::new());
    assert_eq!(game.curr_player.player_action, PlayerAction::Hovering);
    assert_eq!(game.curr_player.selected_pawn_id, Some(0));
    assert_eq!(game.curr_player.curr_hover_position, (4, 0));
    assert_eq!(
        game.message,
        "Selected pawn 1! \n\n Move to desired location and press ENTER."
    );
    game.handle_key_event(KeyInput::Enter, &mut app, &Vec::new());
    assert_eq!(game.players[0].pawns_on_board, 1);
    let (row, col) = game.players[0].pawns[0].position;
    assert_eq!((row, col), (4, 0));
    assert_ne!(game.board[row][col].kind, FieldKind::RedHome);
    assert_eq!(game.board[row][col].kind, FieldKind::RedStart);
    assert_eq!(game.board[row][col].pawn, Some(game.players[0].pawns[0]));
    assert!(game.board[0][0].pawn.is_none());
    assert_eq!(game.curr_player.player_action, PlayerAction::Playing);
    assert_eq!(game.message, "Valid move! \n\n Press SPACE to continue.");
    assert_in_step(&game);
}

#[test]
fn red_captures_yellow_four_slots_ahead() {
    let mut game = two_player_game();
    let mut app = App::new();
    place(&mut game, 0, 0, (3, 4));
    place(&mut game, 1, 2, (0, 6));
    assert_eq!(game.flat_from_pos((3, 4)), Some(5));
    assert_eq!(game.flat_from_pos((0, 6)), Some(9));
    assert_eq!(game.players[1].pawns_on_board, 1);
    assert_in_step(&game);

    MainEventHandler::handle_roll(&mut game, Some(4));
    game.handle_key_event(KeyInput::Char('1'), &mut app, &Vec::new());
    assert_eq!(game.curr_player.curr_hover_position, (3, 4));
    for _ in 0..4 {
        game.handle_key_event(KeyInput::Right, &mut app, &Vec::new());
    }
    assert_eq!(game.curr_player.curr_hover_flat, 9);
    assert_eq!(game.curr_player.curr_hover_position, (0, 6));
    let field = game.get_pawn_field(0);
    assert_eq!(game.is_valid_move(&field, &(0, 6)), Ok(GoodMoveType::Move));

    game.handle_key_event(KeyInput::Enter, &mut app, &Vec::new());
    assert_eq!(game.players[0].pawns[0].position, (0, 6));
    assert_eq!(game.board[0][6].pawn, Some(game.players[0].pawns[0]));
    assert!(game.board[3][4].pawn.is_none());
    assert_eq!(game.players[1].pawns[2].position, game.players[1].home_pos[2]);
    assert_eq!(game.players[1].pawns[2].position, (12, 0));
    assert_eq!(game.board[12][0].pawn, Some(game.players[1].pawns[2]));
    assert_eq!(game.players[1].pawns_on_board, 0);
    assert_eq!(game.players[0].pawns_on_board, 1);
    assert_eq!(game.message, "Valid move! \n\n Press SPACE to continue.");
    assert_eq!(game.curr_player.player_action, PlayerAction::Playing);
    assert_eq!(game.curr_player.roll, Some(4));
    assert_in_step(&game);

    game.handle_key_event(KeyInput::Char(' '), &mut app, &Vec::new());
    assert_eq!(game.curr_player.id, 1);
    assert_eq!(game.curr_player.roll, None);
    assert_eq!(game.curr_player.selected_pawn_id, None);
    assert_eq!(game.curr_player.player_action, PlayerAction::WaitingRoll);
    assert_in_step(&game);
}

#[test]
fn a_capture_with_a_six_keeps_the_turn() {
    let mut game = two_player_game();
    let mut app = App::new();
    place(&mut game, 0, 0, (4, 3));
    place(&mut game, 1, 2, (0, 6));
    MainEventHandler::handle_roll(&mut game, Some(6));
    game.handle_key_event(KeyInput::Char('1'), &mut app, &Vec::new());
    for _ in 0..6 {
        game.handle_key_event(KeyInput::Right, &mut app, &Vec::new());
    }
    assert_eq!(game.curr_player.curr_hover_position, (0, 6));
    game.handle_key_event(KeyInput::Enter, &mut app, &Vec::new());
    assert_eq!(game.players[0].pawns[0].position, (0, 6));
    assert_eq!(game.players[1].pawns_on_board, 0);
    assert_eq!(game.curr_player.player_action, PlayerAction::Playing);
    game.handle_key_event(KeyInput::Char(' '), &mut app, &Vec::new());
    assert_eq!(game.curr_player.id, 0);
    assert_eq!(game.curr_player.roll, None);
    assert_eq!(game.curr_player.player_action, PlayerAction::WaitingRoll);
    assert_eq!(
        game.message,
        "You have rolled a 6! Your turn again \n\n Press SPACE to roll."
    );
    assert_in_step(&game);
}

#[test]
fn the_verdict_needs_no_tidy_board() {
    let mut game = two_player_game();
    let first = ludo::entities::pawn::Pawn::new(0, PawnColor::RED, 0, (6, 2));
    let second = ludo::entities::pawn::Pawn::new(1, PawnColor::RED, 0, (8, 0));
    game.board[6][2].pawn = Some(first);
    game.board[8][0].pawn = Some(second);
    game.players[0].pawns[0] = first;
    game.players[0].pawns[1] = second;
    game.curr_player.roll = Some(4);
    assert_eq!(game.flat_from_pos((6, 2)), Some(41));
    assert_eq!(game.flat_from_pos((8, 0)), Some(38));
    assert_eq!(game.flat_from_pos((6, 3)), Some(42));
    let from = game.board[8][0];
    assert_eq!(game.is_valid_move(&from, &(6, 3)), Err(BadMoveType::CantSkipSafehousePawn));
    assert_eq!(game.is_valid_move(&from, &(6, 1)), Err(BadMoveType::UnreachableField));

    let mut game = two_player_game();
    let red = ludo::entities::pawn::Pawn::new(0, PawnColor::RED, 0, (3, 4));
    let yellow = ludo::entities::pawn::Pawn::new(0, PawnColor::YELLOW, 1, (0, 6));
    game.board[3][4].pawn = Some(red);
    game.board[0][6].pawn = Some(yellow);
    game.players[0].pawns[0] = red;
    game.players[1].pawns[0] = yellow;
    game.curr_player.roll = Some(4);
    let from = game.board[3][4];
    assert_eq!(game.is_valid_move(&from, &(0, 6)), Ok(GoodMoveType::Move));
    assert_eq!(game.is_valid_move(&from, &(0, 8)), Err(BadMoveType::UnreachableField));
    assert_eq!(game.is_valid_move(&from, &(0, 7)), Err(BadMoveType::Generic));
}

#[test]
fn move_pawn_reports_what_it_did() {
    let mut game = two_player_game();
    place(&mut game, 0, 0, (3, 4));
    place(&mut game, 1, 2, (0, 6));
    let mut field = game.get_pawn_field(0);
    assert_eq!(game.move_pawn(&mut field, (1, 4)), Ok(GoodMoveType::Move));
    assert!(field.pawn.is_none());
    assert_eq!(game.players[0].pawns[0].position, (1, 4));
    let mut field = game.get_pawn_field(0);
    assert_eq!(game.move_pawn(&mut field, (0, 6)), Ok(GoodMoveType::EatMove));
    assert_eq!(game.players[1].pawns_on_board, 0);
    let mut empty = game.board[4][4];
    assert_eq!(game.move_pawn(&mut empty, (4, 3)), Err(BadMoveType::Generic));
    assert_in_step(&game);
}

#[test]
fn eat_pawn_sends_the_pawn_home() {
    let mut game = two_player_game();
    place(&mut game, 1, 1, (4, 2));
    game.board[4][2].is_hovered = true;
    let mut field = game.board[4][2];
    game.eat_pawn(&mut field);
    assert!(field.pawn.is_none());
    assert!(!field.is_hovered);
    assert!(game.board[4][2].pawn.is_none());
    assert!(!game.board[4][2].is_hovered);
    assert_eq!(game.players[1].pawns[1].position, (11, 1));
    assert_eq!(game.board[11][1].pawn, Some(game.players[1].pawns[1]));
    assert_eq!(game.players[1].pawns_on_board, 0);
    assert_in_step(&game);
}

#[test]
fn a_roll_without_a_pawn_to_move_ends_the_turn() {
    let mut game = two_player_game();
    MainEventHandler::handle_roll(&mut game, Some(3));
    assert_eq!(game.curr_player.roll, Some(3));
    assert_eq!(game.curr_player.player_action, PlayerAction::Playing);
    assert_eq!(
        game.message,
        "You rolled a 3 but you have no pawns on field \n\n Press ENTER to continue."
    );
    assert_eq!(game.curr_player.selected_pawn_id, None);
    let mut app = App::new();
    game.handle_key_event(KeyInput::Char('1'), &mut app, &Vec::new());
    assert_eq!(game.curr_player.selected_pawn_id, None);
    assert_eq!(game.curr_player.player_action, PlayerAction::Playing);
}

#[test]
fn has_valid_moves_needs_a_six_or_a_pawn_out() {
    let mut game = two_player_game();
    assert_eq!(game.has_valid_moves(), Ok(""));
    game.curr_player.roll = Some(5);
    assert_eq!(game.has_valid_moves(), Err(NoValidMoveType::NoPawnsNot6));
    game.curr_player.roll = Some(6);
    assert_eq!(game.has_valid_moves(), Ok(""));
    place(&mut game, 0, 3, (4, 1));
    game.curr_player.roll = Some(5);
    assert_eq!(game.has_valid_moves(), Ok(""));
}

#[test]
fn a_second_roll_in_the_same_turn_changes_nothing() {
    let mut game = two_player_game();
    MainEventHandler::handle_roll(&mut game, Some(6));
    let message = game.message.clone();
    MainEventHandler::handle_roll(&mut game, Some(2));
    assert_eq!(game.curr_player.roll, Some(6));
    assert_eq!(game.curr_player.player_action, PlayerAction::Selecting);
    assert_eq!(game.message, message);
    MainEventHandler::handle_roll(&mut game, None);
    assert_eq!(game.curr_player.roll, Some(6));
    MainEventHandler::apply_roll(&mut game, 1);
    assert_eq!(game.curr_player.roll, Some(6));
}

#[test]
fn the_space_bar_rolls_between_one_and_six() {
    let mut seen = [false; 7];
    for _ in 0..300 {
        let mut game = two_player_game();
        let mut app = App::new();
        game.handle_key_event(KeyInput::Char(' '), &mut app, &Vec::new());
        let roll = game.curr_player.roll.unwrap();
        assert!((1..=6).contains(&roll));
        seen[roll] = true;
    }
    assert!(seen.iter().filter(|hit| **hit).count() > 1);
}

#[test]
fn a_six_lets_the_same_player_play_again() {
    let mut game = two_player_game();
    let mut app = App::new();
    MainEventHandler::handle_roll(&mut game, Some(6));
    game.handle_key_event(KeyInput::Char('2'), &mut app, &Vec::new());
    game.handle_key_event(KeyInput::Enter, &mut app, &Vec::new());
    assert_eq!(game.curr_player.player_action, PlayerAction::Playing);
    game.handle_key_event(KeyInput::Char(' '), &mut app, &Vec::new());
    assert_eq!(game.curr_player.id, 0);
    assert_eq!(game.curr_player.roll, None);
    assert_eq!(game.curr_player.selected_pawn_id, None);
    assert_eq!(game.curr_player.player_action, PlayerAction::WaitingRoll);
    assert_eq!(
        game.message,
        "You have rolled a 6! Your turn again \n\n Press SPACE to roll."
    );
    assert_eq!(game.path_map[&0], (4, 0));
}

#[test]
fn any_other_roll_passes_the_turn_on() {
    let mut game = two_player_game();
    let mut app = App::new();
    MainEventHandler::handle_roll(&mut game, Some(2));
    assert_eq!(game.curr_player.player_action, PlayerAction::Playing);
    game.handle_key_event(KeyInput::Char(' '), &mut app, &Vec::new());
    assert_eq!(game.curr_player.id, 1);
    assert_eq!(game.curr_player.roll, None);
    assert_eq!(game.curr_player.player_action, PlayerAction::WaitingRoll);
    assert_eq!(game.message, "Press SPACE to roll!");
    assert_eq!(game.path_map.len(), 44);
    assert_eq!(game.path_map[&0], (12, 4));
    assert_eq!(game.path_map[&10], (4, 0));
    assert_eq!(game.path_map[&39], (12, 6));
    assert_eq!(game.path_map[&40], (11, 6));
    assert_eq!(game.path_map[&43], (8, 6));
    assert_eq!(game.curr_player.curr_hover_position, (12, 4));
    assert_eq!(game.curr_player.curr_hover_flat, 0);
    assert!(game.board[12][4].is_hovered);
    assert!(!game.board[4][0].is_hovered);

    MainEventHandler::handle_roll(&mut game, Some(1));
    game.handle_key_event(KeyInput::Char(' '), &mut app, &Vec::new());
    assert_eq!(game.curr_player.id, 0);
    assert_eq!(game.path_map[&0], (4, 0));
    assert_eq!(game.path_map[&40], (6, 1));
    assert_in_step(&game);
}

#[test]
fn next_player_goes_round_three_players() {
    let players = vec![
        Player::new(0, 0, PawnColor::RED),
        Player::new(1, 0, PawnColor::GREEN),
        Player::new(2, 0, PawnColor::BLUE),
    ];
    let mut game = GameMainScreen::new(players, &Vec::new());
    game.next_player();
    assert_eq!(game.curr_player.id, 1);
    assert_eq!(game.path_map[&0], (0, 8));
    assert_eq!(game.path_map[&40], (1, 6));
    game.next_player();
    assert_eq!(game.curr_player.id, 2);
    assert_eq!(game.path_map[&0], (8, 12));
    assert_eq!(game.path_map[&41], (6, 10));
    game.next_player();
    assert_eq!(game.curr_player.id, 0);
    assert_eq!(game.path_map[&0], (4, 0));
    assert_eq!(game.path_map[&5], (3, 4));
}

#[test]
fn a_pawn_at_rest_needs_a_six_and_its_own_entry_cell() {
    let mut game = two_player_game();
    let field = game.get_pawn_field(0);
    game.curr_player.roll = Some(5);
    assert_eq!(game.is_valid_move(&field, &(4, 0)), Err(BadMoveType::DidntRoll6));
    game.curr_player.roll = None;
    assert_eq!(game.is_valid_move(&field, &(4, 0)), Err(BadMoveType::DidntRoll6));
    game.curr_player.roll = Some(6);
    assert_eq!(game.is_valid_move(&field, &(4, 0)), Ok(GoodMoveType::Start));
    assert_eq!(game.is_valid_move(&field, &(4, 1)), Err(BadMoveType::WrongStart));
    assert_eq!(game.is_valid_move(&field, &(12, 4)), Err(BadMoveType::WrongStart));
    place(&mut game, 0, 1, (4, 0));
    let field = game.get_pawn_field(0);
    assert_eq!(game.is_valid_move(&field, &(4, 0)), Err(BadMoveType::StartOccupied));
    place(&mut game, 0, 1, (0, 1));
    place(&mut game, 1, 0, (4, 0));
    let field = game.get_pawn_field(0);
    assert_eq!(game.is_valid_move(&field, &(4, 0)), Ok(GoodMoveType::Start));
}

#[test]
fn a_pawn_on_the_ring_goes_exactly_the_roll() {
    let mut game = two_player_game();
    place(&mut game, 0, 0, (4, 2));
    place(&mut game, 0, 1, (3, 4));
    place(&mut game, 1, 0, (4, 4));
    game.curr_player.roll = Some(3);
    let field = game.get_pawn_field(0);
    assert_eq!(game.is_valid_move(&field, &(3, 4)), Err(BadMoveType::CantEatOwnPawn));
    assert_eq!(game.is_valid_move(&field, &(4, 4)), Err(BadMoveType::UnreachableField));
    assert_eq!(game.is_valid_move(&field, &(2, 4)), Err(BadMoveType::UnreachableField));
    game.curr_player.roll = Some(2);
    assert_eq!(game.is_valid_move(&field, &(4, 4)), Ok(GoodMoveType::Move));
    assert_eq!(game.is_valid_move(&field, &(0, 0)), Err(BadMoveType::Generic));
    let empty = game.board[4][3];
    assert_eq!(game.is_valid_move(&empty, &(4, 4)), Err(BadMoveType::Generic));
    game.curr_player.roll = None;
    assert_eq!(game.is_valid_move(&field, &(4, 4)), Err(BadMoveType::Generic));
}

#[test]
fn no_pawn_may_skip_another_in_the_safehouse() {
    let mut game = two_player_game();
    place(&mut game, 0, 0, (6, 2));
    place(&mut game, 0, 1, (8, 0));
    assert_eq!(game.flat_from_pos((8, 0)), Some(38));
    assert_eq!(game.flat_from_pos((6, 2)), Some(41));
    game.curr_player.roll = Some(5);
    let field = game.get_pawn_field(1);
    assert_eq!(game.is_valid_move(&field, &(6, 4)), Err(BadMoveType::CantSkipSafehousePawn));
    assert_eq!(game.is_valid_move(&field, &(6, 3)), Err(BadMoveType::CantSkipSafehousePawn));
    assert_eq!(game.is_valid_move(&field, &(6, 1)), Err(BadMoveType::UnreachableField));
    game.curr_player.roll = Some(2);
    assert_eq!(game.is_valid_move(&field, &(6, 1)), Ok(GoodMoveType::Move));
    game.curr_player.roll = Some(3);
    assert_eq!(game.is_valid_move(&field, &(6, 2)), Err(BadMoveType::CantEatOwnPawn));
}

#[test]
fn an_empty_safehouse_is_open_whatever_the_roll() {
    let mut game = two_player_game();
    place(&mut game, 0, 2, (4, 4));
    for roll in 1..=6 {
        game.curr_player.roll = Some(roll);
        let field = game.get_pawn_field(2);
        for col in 1..=4 {
            assert_eq!(game.is_valid_move(&field, &(6, col)), Ok(GoodMoveType::Move));
        }
    }
}

#[test]
fn a_refused_move_changes_the_message_only() {
    let mut game = two_player_game();
    let mut app = App::new();
    place(&mut game, 0, 0, (4, 2));
    MainEventHandler::handle_roll(&mut game, Some(3));
    game.handle_key_event(KeyInput::Char('1'), &mut app, &Vec::new());
    game.handle_key_event(KeyInput::Right, &mut app, &Vec::new());
    let board = game.board;
    game.handle_key_event(KeyInput::Enter, &mut app, &Vec::new());
    assert_eq!(
        game.message,
        "Selected field is unreachable with current roll. \n\n You rolled a 3 but the field is 1 fields away."
    );
    assert_eq!(game.curr_player.player_action, PlayerAction::Hovering);
    assert_eq!(game.players[0].pawns[0].position, (4, 2));
    for row in 0..13 {
        for col in 0..13 {
            assert_eq!(game.board[row][col].pawn, board[row][col].pawn);
        }
    }
    game.handle_key_event(KeyInput::Backspace, &mut app, &Vec::new());
    assert_eq!(game.curr_player.player_action, PlayerAction::Selecting);
    assert_eq!(game.curr_player.selected_pawn_id, None);
    assert_eq!(
        game.message,
        "Unselected pawn 1! \n\n Press numbers 1-4 to select new pawn."
    );
    game.handle_key_event(KeyInput::Char('2'), &mut app, &Vec::new());
    assert_eq!(game.curr_player.curr_hover_position, (4, 0));
    game.handle_key_event(KeyInput::Enter, &mut app, &Vec::new());
    assert_eq!(
        game.message,
        "You selected a home field without getting 6! \n\n Press BACKSPACE to select another pawn."
    );
}

#[test]
fn refusals_name_the_pawn_or_what_to_do() {
    let mut game = two_player_game();
    let mut app = App::new();
    place(&mut game, 0, 1, (4, 0));
    MainEventHandler::handle_roll(&mut game, Some(6));
    game.handle_key_event(KeyInput::Char('1'), &mut app, &Vec::new());
    game.handle_key_event(KeyInput::Enter, &mut app, &Vec::new());
    assert_eq!(
        game.message,
        "Start field is occupied! \n\n Press BACKSPCE to select a pawn that is on board."
    );
    place(&mut game, 0, 1, (4, 3));
    game.handle_key_event(KeyInput::Right, &mut app, &Vec::new());
    game.handle_key_event(KeyInput::Enter, &mut app, &Vec::new());
    assert_eq!(
        game.message,
        "Invalid start! You can only start on your own start position. \n\n Select a new position for pawn 1 \n"
    );

    let mut game = two_player_game();
    place(&mut game, 0, 0, (4, 0));
    place(&mut game, 0, 1, (4, 3));
    MainEventHandler::handle_roll(&mut game, Some(3));
    game.handle_key_event(KeyInput::Char('1'), &mut app, &Vec::new());
    for _ in 0..3 {
        game.handle_key_event(KeyInput::Right, &mut app, &Vec::new());
    }
    game.handle_key_event(KeyInput::Enter, &mut app, &Vec::new());
    assert_eq!(
        game.message,
        "You can't move to your own pawn's field! \n\n Move to another field."
    );
}

#[test]
fn select_pawn_takes_indices_below_four() {
    let mut game = two_player_game();
    assert_eq!(game.select_pawn(None), Err("no pawn_id passed"));
    assert_eq!(game.select_pawn(Some(4)), Err("No pawn found"));
    assert_eq!(game.curr_player.selected_pawn_id, None);
    MainEventHandler::handle_roll(&mut game, Some(6));
    assert_eq!(game.select_pawn(Some(3)), Ok(""));
    assert!(game.is_reachable());
    assert_eq!(game.curr_player.selected_pawn_id, Some(3));
    assert_eq!(game.curr_player.player_action, PlayerAction::Hovering);
    assert_eq!(game.get_current_pawn().id, 3);
    assert_eq!(game.get_current_player().pawn_color, PawnColor::RED);
}

#[test]
fn digits_beyond_four_pick_no_pawn() {
    let mut game = two_player_game();
    MainEventHandler::handle_roll(&mut game, Some(6));
    MainEventHandler::handle_pawn_select(&mut game, KeyInput::Char('7'));
    assert_eq!(game.message, "No pawn found");
    assert_eq!(game.curr_player.player_action, PlayerAction::Selecting);
    MainEventHandler::handle_pawn_select(&mut game, KeyInput::Char('x'));
    assert_eq!(game.message, "no pawn_id passed");
    MainEventHandler::handle_pawn_select(&mut game, KeyInput::Char('4'));
    assert_eq!(game.curr_player.selected_pawn_id, Some(3));
}

#[test]
fn the_hover_walks_the_path_both_ways() {
    let mut game = two_player_game();
    game.hover_relative(HoverDir::Right);
    assert_eq!(game.curr_player.curr_hover_flat, 0);
    place(&mut game, 0, 0, (4, 0));
    game.curr_player.roll = Some(2);
    assert_eq!(game.select_pawn(Some(0)), Ok(""));
    game.hover_relative(HoverDir::Right);
    assert_eq!(game.curr_player.curr_hover_flat, 1);
    assert_eq!(game.curr_player.curr_hover_position, (4, 1));
    assert_eq!(game.curr_player.prev_hover_flat, 0);
    assert_eq!(game.curr_player.prev_hover_position, (4, 0));
    assert!(game.board[4][1].is_hovered);
    assert!(!game.board[4][0].is_hovered);
    game.hover_relative(HoverDir::Left);
    game.hover_relative(HoverDir::Down);
    assert_eq!(game.curr_player.curr_hover_flat, 43);
    assert_eq!(game.curr_player.curr_hover_position, (6, 4));
    game.hover_relative(HoverDir::Up);
    assert_eq!(game.curr_player.curr_hover_flat, 0);
    game.focus_field((8, 8));
    assert_eq!(game.curr_player.curr_hover_flat, 24);
    assert!(game.board[8][8].is_hovered);
    game.focus_field((0, 0));
    assert_eq!(game.curr_player.curr_hover_flat, 24);
    assert_eq!(game.flat_from_pos((0, 0)), None);
}

#[test]
fn normalized_arrows_follow_the_ring() {
    let mut game = two_player_game();
    assert_eq!(game.normalize_dir(2, 8, HoverDir::Up), RelativeMove::Forward);
    assert_eq!(game.normalize_dir(2, 8, HoverDir::Left), RelativeMove::Back);
    game.should_normalize_movement = true;
    assert_eq!(game.normalize_dir(2, 8, HoverDir::Up), RelativeMove::Back);
    assert_eq!(game.normalize_dir(2, 8, HoverDir::Down), RelativeMove::Forward);
    assert_eq!(game.normalize_dir(6, 12, HoverDir::Down), RelativeMove::Forward);
    assert_eq!(game.normalize_dir(8, 10, HoverDir::Left), RelativeMove::Forward);
    assert_eq!(game.normalize_dir(8, 10, HoverDir::Right), RelativeMove::Back);
    assert_eq!(game.normalize_dir(12, 6, HoverDir::Right), RelativeMove::Back);
    assert_eq!(game.normalize_dir(8, 2, HoverDir::Left), RelativeMove::Forward);
    assert_eq!(game.normalize_dir(10, 8, HoverDir::Up), RelativeMove::Back);
    assert_eq!(game.normalize_dir(4, 2, HoverDir::Right), RelativeMove::Forward);
    assert_eq!(game.normalize_dir(2, 4, HoverDir::Up), RelativeMove::Forward);
    assert_eq!(game.normalize_dir(2, 4, HoverDir::Down), RelativeMove::Back);
}

#[test]
fn the_hover_moves_only_while_a_target_is_sought() {
    let mut game = two_player_game();
    place(&mut game, 0, 0, (4, 0));
    game.curr_player.roll = Some(2);
    assert_eq!(game.select_pawn(Some(0)), Ok(""));
    game.curr_player.player_action = PlayerAction::Playing;
    game.hover_relative(HoverDir::Right);
    assert_eq!(game.curr_player.curr_hover_flat, 0);
    assert_eq!(game.curr_player.curr_hover_position, (4, 0));
    game.curr_player.player_action = PlayerAction::Selecting;
    game.hover_relative(HoverDir::Right);
    assert_eq!(game.curr_player.curr_hover_flat, 0);
    game.curr_player.player_action = PlayerAction::Hovering;
    game.hover_relative(HoverDir::Right);
    assert_eq!(game.curr_player.curr_hover_flat, 1);
    assert_eq!(game.curr_player.curr_hover_position, (4, 1));
}

#[test]
fn four_pawns_in_the_safehouse_win() {
    let mut game = two_player_game();
    let mut app = App::new();
    assert_eq!(game.check_winner(), Err(false));
    place(&mut game, 1, 0, (11, 6));
    place(&mut game, 1, 1, (10, 6));
    place(&mut game, 1, 2, (9, 6));
    place(&mut game, 1, 3, (4, 4));
    assert_eq!(game.check_winner(), Err(false));
    place(&mut game, 1, 3, (8, 6));
    assert_eq!(game.check_winner(), Ok(1));
    game.curr_player.roll = Some(1);
    assert_eq!(game.select_pawn(Some(0)), Ok(""));
    game.handle_key_event(KeyInput::Enter, &mut app, &Vec::new());
    assert!(game.is_game_finished);
    assert_eq!(game.game_winner.unwrap().id, 1);
    assert_eq!(game.game_winner.unwrap().pawn_color, PawnColor::YELLOW);
}

#[test]
fn escape_pauses_and_unknown_keys_do_nothing() {
    let mut game = two_player_game();
    let mut app = App::new();
    let requests = game.handle_key_event(KeyInput::Other, &mut app, &Vec::new());
    assert!(requests.delete.is_none() && requests.save.is_none() && requests.load.is_none());
    game.handle_key_event(KeyInput::Char('e'), &mut app, &Vec::new());
    game.handle_key_event(KeyInput::Backspace, &mut app, &Vec::new());
    game.handle_key_event(KeyInput::Enter, &mut app, &Vec::new());
    game.handle_key_event(KeyInput::Up, &mut app, &Vec::new());
    assert_eq!(game.curr_player.roll, None);
    assert_eq!(game.curr_player.player_action, PlayerAction::WaitingRoll);
    assert_eq!(game.state, GameState::RUNNING);
    assert_eq!(game.message, "Press SPACE to roll the dice!");
    game.handle_key_event(KeyInput::Esc, &mut app, &Vec::new());
    assert_eq!(game.state, GameState::PAUSED);
    game.handle_key_event(KeyInput::Esc, &mut app, &Vec::new());
    assert_eq!(game.state, GameState::RUNNING);
    assert!(!app.should_quit);
}

#[test]
fn a_match_out_of_step_is_not_reachable() {
    let game = two_player_game();
    assert!(game.is_reachable());

    let mut drifted = two_player_game();
    drifted.players[0].pawns[1].position = (4, 1);
    assert!(!drifted.is_reachable());

    let mut miscounted = two_player_game();
    miscounted.players[1].pawns_on_board = 1;
    assert!(!miscounted.is_reachable());

    let mut relabeled = two_player_game();
    relabeled.board[4][4].kind = FieldKind::Gap;
    assert!(!relabeled.is_reachable());

    let mut shifted = two_player_game();
    shifted.path_map.insert(0, (4, 1));
    assert!(!shifted.is_reachable());
    let mut longer = two_player_game();
    longer.path_map.insert(44, (4, 1));
    assert!(!longer.is_reachable());
    let mut shorter = two_player_game();
    shorter.path_map.remove(&43);
    assert!(!shorter.is_reachable());

    let mut lost = two_player_game();
    lost.curr_player.id = 2;
    assert!(!lost.is_reachable());
    let mut astray = two_player_game();
    astray.curr_player.curr_hover_flat = 3;
    assert!(!astray.is_reachable());
    let mut unpicked = two_player_game();
    unpicked.curr_player.player_action = PlayerAction::Hovering;
    assert!(!unpicked.is_reachable());

    let mut stacked = two_player_game();
    stacked.board[0][0].pawn = None;
    assert!(!stacked.is_reachable());
    let mut twins = two_player_game();
    twins.players[1].pawn_color = PawnColor::RED;
    assert!(!twins.is_reachable());

    let mut cut = two_player_game();
    place(&mut cut, 0, 0, (12, 0));
    assert!(!cut.is_reachable());
    let mut fine = two_player_game();
    place(&mut fine, 0, 0, (6, 6));
    assert!(fine.is_reachable());
}
