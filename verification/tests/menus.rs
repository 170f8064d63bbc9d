use ludo::app::App;
use ludo::app::CurrentScreen;
use ludo::custom_widgets::button::ButtonState;
use ludo::entities::pawn::PawnColor;
use ludo::entities::player::Player;
use ludo::event::KeyInput;
use ludo::screens::game_initialization_screen::player_order_state::RollState;
use ludo::screens::game_initialization_screen::screen::GameInitializationScreen;
use ludo::screens::game_initialization_screen::screen::GameInitializationStep;
use ludo::screens::game_main_screen::restore::Snapshot;
use ludo::screens::game_main_screen::screen::GameMainScreen;
use ludo::screens::game_main_screen::screen::GameState;
use ludo::screens::game_main_screen::screen::PlayerAction;
use ludo::screens::game_screen::GamePhase;
use ludo::screens::game_screen::GameScreen;
use ludo::screens::main_menu::MainMenu;
use ludo::screens::pause_menu::fs::contains_file;
use ludo::screens::pause_menu::fs::comes_before;
use ludo::screens::pause_menu::fs::copy_files;
use ludo::screens::pause_menu::fs::sort_newest_first;
use ludo::screens::pause_menu::fs::FileInfo;
use ludo::screens::pause_menu::load_handler::LoadState;
use ludo::screens::pause_menu::save_handler::SaveState;
use ludo::screens::pause_menu::screen::PauseMenu;
use ludo::screens::pause_menu::screen::PauseMenuButton;
use ludo::screens::pause_menu::screen::PauseMenuState;

fn listing(names: &[&str]) -> Vec<FileInfo> {
    names
        .iter()
        .map(|name| FileInfo {
            name: name.to_string(),
            created: "2024-01-01 10:00:00".to_string(),
            size: 10,
        })
        .collect()
}

fn press_each(menu: &mut PauseMenu, name: &str, files: &Vec<FileInfo>) {
    for c in name.chars() {
        menu.handle_key_event(KeyInput::Char(c), files);
    }
}

#[test]
fn the_pause_menu_opens_on_resume() {
    let files = listing(&["a.json"]);
    let menu = PauseMenu::new(&files);
    assert_eq!(menu.buttons.len(), 4);
    assert_eq!(menu.buttons[0].label, "Resume");
    assert_eq!(menu.buttons[0].value, PauseMenuButton::Resume);
    assert_eq!(menu.buttons[0].state, ButtonState::Selected);
    assert_eq!(menu.buttons[3].label, "Exit");
    assert_eq!(menu.buttons[3].value, PauseMenuButton::Exit);
    assert_eq!(menu.buttons[3].state, ButtonState::Normal);
    assert_eq!(menu.selected_button_id, 0);
    assert_eq!(menu.state, PauseMenuState::Wait);
    assert!(!menu.should_quit);
    assert_eq!(menu.save_state.save_files.len(), 1);
    assert_eq!(menu.load_state.save_files[0].name, "a.json");
    assert_eq!(menu.get_selected_button().value, PauseMenuButton::Resume);
    assert_eq!(menu.get_button(2).unwrap().value, PauseMenuButton::Load);
    assert!(menu.get_button(4).is_none());
    assert_eq!(
        SaveState::new(Vec::new()).message,
        "Enter save file name. Press ESC to go back, ENTER to confirm or - to enter delete mode."
    );
    assert_eq!(
        LoadState::new(Vec::new()).message,
        "Enter save file name to load. Press ESC to go back or ENTER to confirm."
    );
}

#[test]
fn the_arrows_move_the_selection_round_the_menu() {
    let files = Vec::new();
    let mut menu = PauseMenu::new(&files);
    menu.handle_key_event(KeyInput::Up, &files);
    assert_eq!(menu.selected_button_id, 3);
    assert_eq!(menu.buttons[3].state, ButtonState::Selected);
    assert_eq!(menu.buttons[0].state, ButtonState::Normal);
    menu.handle_key_event(KeyInput::Down, &files);
    assert_eq!(menu.selected_button_id, 0);
    menu.handle_key_event(KeyInput::Down, &files);
    menu.handle_key_event(KeyInput::Down, &files);
    assert_eq!(menu.selected_button_id, 2);
    assert_eq!(menu.state, PauseMenuState::Wait);
    menu.handle_key_event(KeyInput::Enter, &files);
    assert_eq!(menu.state, PauseMenuState::Loading);
    assert!(menu.should_quit);
    let mut menu = PauseMenu::new(&files);
    menu.handle_key_event(KeyInput::Esc, &files);
    assert_eq!(menu.state, PauseMenuState::Resume);
    let mut menu = PauseMenu::new(&files);
    menu.handle_key_event(KeyInput::Up, &files);
    menu.handle_key_event(KeyInput::Enter, &files);
    assert_eq!(menu.state, PauseMenuState::Exit);
}

#[test]
fn a_match_is_saved_under_a_free_name() {
    let files = listing(&["taken.json"]);
    let mut menu = PauseMenu::new(&files);
    menu.handle_key_event(KeyInput::Down, &files);
    menu.handle_key_event(KeyInput::Enter, &files);
    assert_eq!(menu.state, PauseMenuState::Saving);
    assert_eq!(menu.handle_key_event(KeyInput::Enter, &files), None);
    assert_eq!(menu.save_state.message, "Please enter a name!");
    press_each(&mut menu, "tak en!_1", &files);
    assert_eq!(menu.save_state.save_file_name, "taken_1");
    menu.handle_key_event(KeyInput::Backspace, &files);
    menu.handle_key_event(KeyInput::Backspace, &files);
    assert_eq!(menu.save_state.save_file_name, "taken");
    menu.handle_key_event(KeyInput::Enter, &files);
    assert_eq!(menu.save_state.message, "File with that name already exists!");
    assert_eq!(menu.state, PauseMenuState::Saving);
    press_each(&mut menu, "2", &files);
    assert_eq!(menu.handle_key_event(KeyInput::Enter, &files), None);
    assert_eq!(menu.save_state.message, "Successfully saved!");
    assert_eq!(menu.state, PauseMenuState::Saved);
    assert_eq!(menu.save_state.save_file_name, "taken2");
    menu.handle_key_event(KeyInput::Esc, &files);
    assert_eq!(menu.state, PauseMenuState::Wait);
    assert_eq!(menu.save_state.save_file_name, "");

    let many = listing(&["1", "2", "3", "4", "5", "6", "7", "8", "9", "10", "11"]);
    let mut menu = PauseMenu::new(&many);
    menu.state = PauseMenuState::Saving;
    press_each(&mut menu, "x", &many);
    menu.handle_key_event(KeyInput::Enter, &many);
    assert_eq!(menu.save_state.message, "You can only save 20 games!");
    assert_eq!(menu.state, PauseMenuState::Saving);
    for _ in 0..3 {
        menu.handle_key_event(KeyInput::Backspace, &many);
    }
    assert_eq!(menu.save_state.save_file_name, "");
}

#[test]
fn a_save_is_deleted_by_name() {
    let files = listing(&["old.json", "new.json"]);
    let mut menu = PauseMenu::new(&files);
    menu.state = PauseMenuState::Saving;
    press_each(&mut menu, "old", &files);
    menu.handle_key_event(KeyInput::Char('-'), &files);
    assert!(menu.save_state.is_deleting);
    assert_eq!(menu.save_state.save_file_name, "");
    assert_eq!(
        menu.save_state.message,
        "DELETE MODE: Enter the name of file you want to delete. Press + to go back."
    );
    assert_eq!(menu.handle_key_event(KeyInput::Enter, &files), None);
    assert_eq!(menu.save_state.message, "Please enter a name!");
    press_each(&mut menu, "older", &files);
    assert_eq!(menu.handle_key_event(KeyInput::Enter, &files), None);
    assert_eq!(menu.save_state.message, "DELETE MODE: File with that name doesn't exist!");
    menu.handle_key_event(KeyInput::Backspace, &files);
    menu.handle_key_event(KeyInput::Backspace, &files);
    assert_eq!(
        menu.handle_key_event(KeyInput::Enter, &files),
        Some("old.json".to_string())
    );
    assert_eq!(menu.save_state.message, "DELETE MODE: Successfully deleted!");
    assert_eq!(menu.state, PauseMenuState::Saving);
    menu.handle_key_event(KeyInput::Char('+'), &files);
    assert!(!menu.save_state.is_deleting);
    assert_eq!(
        menu.save_state.message,
        "ADD MODE: Enter the name for save file. Press - for delete mode."
    );
}

#[test]
fn a_match_is_loaded_from_a_save_that_exists() {
    let files = listing(&["one.json"]);
    let mut menu = PauseMenu::new(&files);
    menu.state = PauseMenuState::Loading;
    menu.handle_key_event(KeyInput::Enter, &files);
    assert_eq!(menu.load_state.message, "Please enter a name!");
    press_each(&mut menu, "two", &files);
    menu.handle_key_event(KeyInput::Enter, &files);
    assert_eq!(menu.load_state.message, "File with that name doesn't exist.");
    assert_eq!(menu.load_state.load_file_name, "");
    assert_eq!(menu.state, PauseMenuState::Loading);
    press_each(&mut menu, "one+-x", &files);
    menu.handle_key_event(KeyInput::Backspace, &files);
    assert_eq!(menu.load_state.load_file_name, "one");
    menu.handle_key_event(KeyInput::Enter, &files);
    assert_eq!(menu.load_state.message, "Successfully loaded!");
    assert_eq!(menu.state, PauseMenuState::Loaded);
    menu.handle_key_event(KeyInput::Esc, &files);
    assert_eq!(menu.state, PauseMenuState::Wait);
    assert!(contains_file(&files, &"one.json".to_string()));
    assert!(!contains_file(&files, &"one".to_string()));
    assert_eq!(copy_files(&files)[0].name, "one.json");
    assert_eq!(copy_files(&files)[0].size, 10);
}

#[test]
fn the_paused_match_asks_for_saves_and_loads() {
    let files = listing(&["one.json"]);
    let players = vec![Player::new(0, 1, PawnColor::RED), Player::new(1, 2, PawnColor::BLUE)];
    let mut game = GameMainScreen::new(players, &files);
    let mut app = App::new();
    assert_eq!(game.state, GameState::PAUSED);
    game.handle_key_event(KeyInput::Down, &mut app, &files);
    let requests = game.handle_key_event(KeyInput::Enter, &mut app, &files);
    assert!(requests.save.is_none() && requests.load.is_none() && requests.delete.is_none());
    assert_eq!(game.pause_menu.state, PauseMenuState::Saving);
    game.handle_key_event(KeyInput::Char('g'), &mut app, &files);
    let requests = game.handle_key_event(KeyInput::Enter, &mut app, &files);
    assert_eq!(requests.save, Some("g".to_string()));
    assert!(requests.load.is_none() && requests.delete.is_none());
    assert_eq!(game.state, GameState::PAUSED);
    assert_eq!(game.curr_player.roll, None);
    game.handle_key_event(KeyInput::Esc, &mut app, &files);
    game.handle_key_event(KeyInput::Down, &mut app, &files);
    game.handle_key_event(KeyInput::Enter, &mut app, &files);
    assert_eq!(game.pause_menu.state, PauseMenuState::Loading);
    for c in "one".chars() {
        game.handle_key_event(KeyInput::Char(c), &mut app, &files);
    }
    let requests = game.handle_key_event(KeyInput::Enter, &mut app, &files);
    assert_eq!(requests.load, Some("one".to_string()));
    assert!(!app.should_quit);

    let mut other = GameMainScreen::new(
        vec![Player::new(0, 0, PawnColor::GREEN), Player::new(1, 0, PawnColor::YELLOW)],
        &files,
    );
    other.message = "loaded".to_string();
    game.finish_load(other, &files);
    assert_eq!(game.state, GameState::RUNNING);
    assert_eq!(game.message, "loaded");
    assert_eq!(game.players[0].pawn_color, PawnColor::GREEN);
    assert_eq!(game.pause_menu.state, PauseMenuState::Wait);
    assert_eq!(game.path_map[&40], (1, 6));

    game.handle_key_event(KeyInput::Esc, &mut app, &files);
    assert_eq!(game.state, GameState::PAUSED);
    game.handle_key_event(KeyInput::Up, &mut app, &files);
    game.handle_key_event(KeyInput::Enter, &mut app, &files);
    assert!(app.should_quit);
}

#[test]
fn a_saved_match_is_restored_as_it_was() {
    let files = Vec::new();
    let players = vec![Player::new(0, 1, PawnColor::RED), Player::new(1, 2, PawnColor::YELLOW)];
    let mut game = GameMainScreen::new(players, &files);
    let mut app = App::new();
    game.state = GameState::RUNNING;
    ludo::screens::game_main_screen::event_handler::MainEventHandler::handle_roll(
        &mut game,
        Some(6),
    );
    game.handle_key_event(KeyInput::Char('3'), &mut app, &files);
    game.handle_key_event(KeyInput::Enter, &mut app, &files);
    game.handle_key_event(KeyInput::Char(' '), &mut app, &files);
    ludo::screens::game_main_screen::event_handler::MainEventHandler::handle_roll(
        &mut game,
        Some(2),
    );
    game.handle_key_event(KeyInput::Char('3'), &mut app, &files);
    game.handle_key_event(KeyInput::Right, &mut app, &files);
    game.handle_key_event(KeyInput::Right, &mut app, &files);
    game.handle_key_event(KeyInput::Enter, &mut app, &files);
    assert_eq!(game.players[0].pawns[2].position, (4, 2));
    game.handle_key_event(KeyInput::Char(' '), &mut app, &files);
    assert_eq!(game.curr_player.id, 1);

    let saved = game.snapshot();
    assert_eq!(saved.players.len(), 2);
    assert_eq!(saved.message, game.message);
    assert_eq!(saved.playing_colors, game.playing_colors);
    let kept = game.snapshot();
    game.handle_key_event(KeyInput::Esc, &mut app, &files);
    ludo::screens::game_main_screen::event_handler::MainEventHandler::handle_roll(
        &mut game,
        Some(6),
    );
    assert_eq!(game.curr_player.roll, Some(6));
    assert_eq!(kept.curr_player.roll, None);
    game.finish_load(GameMainScreen::restore(kept, &files).unwrap(), &files);
    assert_eq!(game.curr_player.roll, None);
    assert_eq!(game.state, GameState::RUNNING);
    let restored = GameMainScreen::restore(saved, &files).unwrap();
    assert_eq!(restored.path_map, game.path_map);
    assert_eq!(restored.players.len(), 2);
    assert_eq!(restored.players[0].pawns, game.players[0].pawns);
    assert_eq!(restored.players[0].pawns_on_board, 1);
    assert_eq!(restored.curr_player.id, 1);
    assert_eq!(restored.curr_player.curr_hover_position, (12, 4));
    assert_eq!(restored.message, game.message);
    assert_eq!(restored.state, GameState::RUNNING);
    for row in 0..13 {
        for col in 0..13 {
            assert_eq!(restored.board[row][col].pawn, game.board[row][col].pawn);
            assert_eq!(restored.board[row][col].kind, game.board[row][col].kind);
            assert_eq!(restored.board[row][col].is_hovered, game.board[row][col].is_hovered);
        }
    }

    let mut broken = Snapshot {
        players: game.players.clone(),
        curr_player: game.curr_player,
        is_game_finished: false,
        board: game.board,
        message: String::new(),
        should_normalize_movement: false,
        playing_colors: Vec::new(),
        game_winner: None,
    };
    broken.players[0].pawns[2].position = (4, 1);
    assert!(GameMainScreen::restore(broken, &files).is_none());
    let mut broken = Snapshot {
        players: game.players.clone(),
        curr_player: game.curr_player,
        is_game_finished: false,
        board: game.board,
        message: String::new(),
        should_normalize_movement: false,
        playing_colors: Vec::new(),
        game_winner: None,
    };
    broken.players[1].pawns_on_board = 2;
    assert!(GameMainScreen::restore(broken, &files).is_none());
    let mut broken = Snapshot {
        players: game.players.clone(),
        curr_player: game.curr_player,
        is_game_finished: false,
        board: game.board,
        message: String::new(),
        should_normalize_movement: false,
        playing_colors: Vec::new(),
        game_winner: None,
    };
    broken.curr_player.player_action = PlayerAction::Hovering;
    assert!(GameMainScreen::restore(broken, &files).is_none());
    let mut unrolled = game.snapshot();
    unrolled.curr_player.roll = None;
    unrolled.curr_player.selected_pawn_id = None;
    unrolled.curr_player.player_action = PlayerAction::WaitingRoll;
    assert!(GameMainScreen::restore(unrolled, &files).is_some());
    let mut picked_early = game.snapshot();
    picked_early.curr_player.roll = None;
    picked_early.curr_player.selected_pawn_id = Some(0);
    picked_early.curr_player.player_action = PlayerAction::WaitingRoll;
    assert!(GameMainScreen::restore(picked_early, &files).is_none());
    let mut choosing_early = game.snapshot();
    choosing_early.curr_player.roll = None;
    choosing_early.curr_player.selected_pawn_id = None;
    choosing_early.curr_player.player_action = PlayerAction::Selecting;
    assert!(GameMainScreen::restore(choosing_early, &files).is_none());
    let mut seeking = game.snapshot();
    seeking.curr_player.roll = Some(3);
    seeking.curr_player.selected_pawn_id = Some(0);
    seeking.curr_player.player_action = PlayerAction::Hovering;
    assert!(GameMainScreen::restore(seeking, &files).is_some());
    let empty = Snapshot {
        players: Vec::new(),
        curr_player: game.curr_player,
        is_game_finished: false,
        board: game.board,
        message: String::new(),
        should_normalize_movement: false,
        playing_colors: Vec::new(),
        game_winner: None,
    };
    assert!(GameMainScreen::restore(empty, &files).is_none());
}

#[test]
fn the_wizard_seats_the_players() {
    let mut wizard = GameInitializationScreen::new();
    assert_eq!(wizard.step, GameInitializationStep::PlayerNumberSelection);
    assert_eq!(wizard.state, GameState::RUNNING);
    assert!(wizard.get_players().is_empty());
    wizard.apply_key(KeyInput::Esc, 1);
    assert_eq!(wizard.state, GameState::PAUSED);
    wizard.apply_key(KeyInput::Esc, 1);
    assert_eq!(wizard.state, GameState::RUNNING);
    wizard.apply_key(KeyInput::Left, 1);
    assert_eq!(wizard.player_count_state.curr_id, 2);
    wizard.apply_key(KeyInput::Right, 1);
    wizard.apply_key(KeyInput::Right, 1);
    assert_eq!(wizard.player_count_state.curr_id, 1);
    assert_eq!(wizard.player_count_state.options[1].state, ButtonState::Selected);
    wizard.apply_key(KeyInput::Enter, 1);
    assert_eq!(wizard.step, GameInitializationStep::PlayerPawnColorSelection);
    assert_eq!(wizard.player_count_state.selected_player_count, 3);

    wizard.apply_key(KeyInput::Enter, 1);
    assert_eq!(wizard.players.len(), 1);
    assert_eq!(wizard.players[0].pawn_color, PawnColor::RED);
    assert_eq!(wizard.players[0].id, 0);
    assert_eq!(wizard.pawn_color_state.taken, vec![PawnColor::RED]);
    assert_eq!(wizard.pawn_color_state.options[0].label, "Player 1");
    assert_eq!(wizard.pawn_color_state.options[0].state, ButtonState::Active);
    assert_eq!(wizard.pawn_color_state.curr_id, 1);
    assert_eq!(wizard.pawn_color_state.label, 2);
    wizard.apply_key(KeyInput::Left, 1);
    assert_eq!(wizard.pawn_color_state.curr_id, 3);
    wizard.apply_key(KeyInput::Enter, 1);
    assert_eq!(wizard.players[1].pawn_color, PawnColor::YELLOW);
    assert_eq!(wizard.players[1].pawns[0].player_id, 1);
    assert_eq!(wizard.pawn_color_state.curr_id, 1);
    wizard.apply_key(KeyInput::Right, 1);
    assert_eq!(wizard.pawn_color_state.curr_id, 2);
    wizard.apply_key(KeyInput::Right, 1);
    assert_eq!(wizard.pawn_color_state.curr_id, 1);
    wizard.apply_key(KeyInput::Enter, 1);
    assert_eq!(wizard.step, GameInitializationStep::PlayerOrderSelection);
    assert_eq!(wizard.players.len(), 3);
    assert_eq!(wizard.players[2].pawn_color, PawnColor::GREEN);

    wizard.apply_key(KeyInput::Char(' '), 4);
    wizard.apply_key(KeyInput::Char(' '), 6);
    assert_eq!(wizard.player_order_state.curr_id, 2);
    wizard.apply_key(KeyInput::Char(' '), 4);
    assert_eq!(wizard.player_order_state.roll_state, RollState::Rethrow);
    assert_eq!(wizard.step, GameInitializationStep::PlayerOrderSelection);
    wizard.apply_key(KeyInput::Char(' '), 1);
    assert_eq!(wizard.player_order_state.curr_id, 0);
    assert_eq!(wizard.player_order_state.reroll_buffer, vec![2]);
    assert_eq!(wizard.player_order_state.rolled_numbers.get(&0), None);
    wizard.apply_key(KeyInput::Char(' '), 5);
    assert_eq!(wizard.player_order_state.rolled_numbers.get(&0), Some(&5));
    assert_eq!(wizard.player_order_state.curr_id, 2);
    wizard.apply_key(KeyInput::Char(' '), 3);
    assert_eq!(wizard.player_order_state.roll_state, RollState::RethrowFinished);
    assert_eq!(wizard.step, GameInitializationStep::Confirmation);
    assert_eq!(wizard.player_order_state.rolled_numbers.get(&1), Some(&6));
    assert_eq!(wizard.player_order_state.rolled_numbers.get(&2), Some(&3));
    assert!(!wizard.is_game_initialized);
    wizard.apply_key(KeyInput::Backspace, 1);
    assert_eq!(wizard.step, GameInitializationStep::PlayerOrderSelection);
    assert_eq!(wizard.players.len(), 3);
    wizard.apply_key(KeyInput::Char(' '), 1);
    wizard.apply_key(KeyInput::Char(' '), 2);
    wizard.apply_key(KeyInput::Char(' '), 3);
    assert_eq!(wizard.step, GameInitializationStep::Confirmation);
    wizard.apply_key(KeyInput::Enter, 1);
    assert!(wizard.is_game_initialized);
    assert_eq!(GameInitializationStep::Confirmation.rank(), 3);

    let game = GameMainScreen::new(wizard.players.clone(), &Vec::new());
    assert_eq!(game.playing_colors, vec![PawnColor::RED, PawnColor::YELLOW, PawnColor::GREEN]);
}

#[test]
fn a_tampered_wizard_is_not_consistent() {
    let mut wizard = GameInitializationScreen::new();
    assert!(wizard.is_consistent());
    wizard.apply_key(KeyInput::Enter, 1);
    wizard.apply_key(KeyInput::Enter, 1);
    assert!(wizard.is_consistent());
    let mut screen = GameScreen::new();
    assert!(screen.is_consistent());
    screen.handle_key_event(KeyInput::Other, &mut App::new(), &Vec::new());
    assert!(screen.is_consistent());
    screen.game_main_screen.as_mut().unwrap().players[0].pawns_on_board = 3;
    assert!(!screen.is_consistent());

    wizard.players[0].order = 5;
    assert!(!wizard.is_consistent());
    wizard.players[0].order = 0;
    assert!(wizard.is_consistent());
    wizard.pawn_color_state.taken.push(PawnColor::RED);
    assert!(!wizard.is_consistent());
    wizard.pawn_color_state.taken.pop();
    wizard.player_order_state.rolled_numbers.insert(0, 3);
    assert!(!wizard.is_consistent());
    wizard.player_order_state.rolled_numbers.clear();
    wizard.player_count_state.selected_player_count = 5;
    assert!(!wizard.is_consistent());
    wizard.player_count_state.selected_player_count = 2;
    wizard.step = GameInitializationStep::PlayerOrderSelection;
    assert!(!wizard.is_consistent());
    wizard.step = GameInitializationStep::PlayerPawnColorSelection;
    wizard.is_game_initialized = true;
    assert!(!wizard.is_consistent());
}

#[test]
fn backspace_takes_the_wizard_back() {
    let mut wizard = GameInitializationScreen::new();
    wizard.handle_key_event(KeyInput::Enter);
    assert_eq!(wizard.player_count_state.selected_player_count, 2);
    wizard.handle_key_event(KeyInput::Enter);
    assert_eq!(wizard.players.len(), 1);
    wizard.handle_key_event(KeyInput::Backspace);
    assert_eq!(wizard.step, GameInitializationStep::PlayerNumberSelection);
    assert!(wizard.players.is_empty());
    assert!(wizard.pawn_color_state.taken.is_empty());
    assert_eq!(wizard.player_count_state.selected_player_count, 0);
    wizard.handle_key_event(KeyInput::Enter);
    wizard.handle_key_event(KeyInput::Enter);
    wizard.handle_key_event(KeyInput::Enter);
    assert_eq!(wizard.step, GameInitializationStep::PlayerOrderSelection);
    assert_eq!(wizard.players.len(), 2);
    assert_eq!(wizard.players[1].pawn_color, PawnColor::GREEN);
    wizard.handle_key_event(KeyInput::Char(' '));
    let first = *wizard.player_order_state.rolled_numbers.get(&0).unwrap();
    assert!((1..=6).contains(&first));
    wizard.handle_key_event(KeyInput::Backspace);
    assert_eq!(wizard.step, GameInitializationStep::PlayerPawnColorSelection);
    assert!(wizard.players.is_empty());
    assert!(wizard.player_order_state.rolled_numbers.is_empty());
    assert_eq!(wizard.player_count_state.selected_player_count, 2);
    wizard.handle_key_event(KeyInput::Other);
    wizard.handle_key_event(KeyInput::Char('x'));
    assert_eq!(wizard.step, GameInitializationStep::PlayerPawnColorSelection);
}

#[test]
fn the_game_goes_from_the_match_to_the_ending() {
    let files = Vec::new();
    let mut screen = GameScreen::new();
    let mut app = App::new();
    assert_eq!(screen.phase, GamePhase::MAIN);
    assert_eq!(screen.previous_phase, GamePhase::INITIALIZATION);
    assert!(screen.game_main_screen.is_none());
    screen.handle_key_event(KeyInput::Other, &mut app, &files);
    let game = screen.game_main_screen.as_mut().unwrap();
    assert_eq!(game.players.len(), 2);
    assert_eq!(game.players[0].pawn_color, PawnColor::RED);
    assert_eq!(game.players[1].pawn_color, PawnColor::YELLOW);
    assert_eq!(game.players[1].id, 1);
    assert_eq!(game.state, GameState::PAUSED);
    game.is_game_finished = true;
    game.game_winner = Some(game.players[1]);
    screen.handle_key_event(KeyInput::Other, &mut app, &files);
    assert_eq!(screen.phase, GamePhase::ENDING);
    assert_eq!(screen.previous_phase, GamePhase::MAIN);
    assert_eq!(screen.game_ending_screen.as_ref().unwrap().player.id, 1);
    assert!(!app.should_quit);
    screen.handle_key_event(KeyInput::Other, &mut app, &files);
    assert!(app.should_quit);

    let mut screen = GameScreen::new();
    let mut app = App::new();
    screen.phase = GamePhase::INITIALIZATION;
    for key in [KeyInput::Enter, KeyInput::Enter, KeyInput::Enter] {
        screen.handle_key_event(key, &mut app, &files);
    }
    assert_eq!(screen.phase, GamePhase::INITIALIZATION);
    assert_eq!(
        screen.game_initialization_screen.step,
        GameInitializationStep::PlayerOrderSelection
    );
    while screen.phase == GamePhase::INITIALIZATION {
        screen.handle_key_event(KeyInput::Char(' '), &mut app, &files);
        screen.handle_key_event(KeyInput::Enter, &mut app, &files);
    }
    assert_eq!(screen.phase, GamePhase::MAIN);
    let game = screen.game_main_screen.as_ref().unwrap();
    assert_eq!(game.playing_colors, vec![PawnColor::RED, PawnColor::GREEN]);

    let mut screen = GameScreen::new();
    screen.phase = GamePhase::ENDING;
    let mut app = App::new();
    screen.handle_key_event(KeyInput::Enter, &mut app, &files);
    assert!(!app.should_quit);
    assert_eq!(screen.game_ending_screen.as_ref().unwrap().player.pawn_color, PawnColor::RED);
}

#[test]
fn the_main_menu_starts_a_game_or_leaves() {
    let mut menu = MainMenu::new();
    let mut app = App::new();
    assert_eq!(menu.buttons.len(), 3);
    assert_eq!(menu.get_button(0).unwrap().label, "New Game");
    assert_eq!(menu.get_button(1).unwrap().value, "LOAD");
    assert!(menu.get_button(3).is_none());
    menu.handle_key_event(KeyInput::Up, &mut app);
    assert_eq!(menu.selected_button_id, 2);
    assert_eq!(menu.buttons[2].state, ButtonState::Selected);
    assert_eq!(menu.buttons[0].state, ButtonState::Normal);
    menu.handle_key_event(KeyInput::Enter, &mut app);
    assert!(app.should_quit);
    assert!(menu.should_quit);
    assert_eq!(app.current_screen, CurrentScreen::MainMenu);
    let mut menu = MainMenu::new();
    let mut app = App::new();
    menu.handle_key_event(KeyInput::Down, &mut app);
    menu.handle_key_event(KeyInput::Other, &mut app);
    assert_eq!(menu.selected_button_id, 1);
    menu.handle_key_event(KeyInput::Enter, &mut app);
    assert_eq!(app.current_screen, CurrentScreen::GameScene);
    assert!(!app.should_quit);
}

#[test]
fn listings_run_from_the_newest_save_to_the_oldest() {
    assert!(comes_before("2024-01-01 10:00:00", "2024-01-01 10:00:01"));
    assert!(!comes_before("2024-01-01 10:00:01", "2024-01-01 10:00:00"));
    assert!(!comes_before("same", "same"));
    assert!(comes_before("", "a"));
    assert!(!comes_before("a", ""));
    assert!(!comes_before("", ""));
    assert!(comes_before("ab", "abc"));
    assert!(comes_before("Z", "a"));
    assert!(comes_before("a", "é"));

    let entry = |name: &str, created: &str| FileInfo {
        name: name.to_string(),
        created: created.to_string(),
        size: 1,
    };
    let files = vec![
        entry("b", "2024-02-01 09:00:00"),
        entry("d", "2023-12-31 23:59:59"),
        entry("a", "2024-03-05 12:00:00"),
        entry("c", "2024-02-01 09:00:00"),
        entry("e", "2024-03-05 12:00:01"),
    ];
    let mut expected = files.clone();
    expected.sort_by(|a, b| b.created.cmp(&a.created));
    let sorted = sort_newest_first(files);
    let names: Vec<&str> = sorted.iter().map(|file| file.name.as_str()).collect();
    assert_eq!(names, vec!["e", "a", "b", "c", "d"]);
    let expected_names: Vec<&str> = expected.iter().map(|file| file.name.as_str()).collect();
    assert_eq!(names, expected_names);
    assert!(sort_newest_first(Vec::new()).is_empty());
}
