use std::collections::BTreeMap;

use ludo::app::App;
use ludo::app::CurrentScreen;
use ludo::constants::save_path;
use ludo::constants::saved_file_path;
use ludo::constants::SAVE_FILE_PATH;
use ludo::custom_widgets::button::Button;
use ludo::custom_widgets::button::ButtonState;
use ludo::custom_widgets::button::Theme;
use ludo::custom_widgets::circle::Circle;
use ludo::entities::pawn::Pawn;
use ludo::entities::pawn::PawnColor;
use ludo::entities::pawn::Rgb;
use ludo::screens::game_main_screen::game::Game;
use ludo::screens::game_main_screen::move_type::BadMoveType;
use ludo::screens::game_main_screen::move_type::NoValidMoveType;
use ludo::text::number_text;
use ludo::text::save_file_name;
use ludo::text::text_is;
use ludo::ui::get_field;
use ludo::ui::pawn_label;
use ludo::utils::has_duplicate_values;
use ludo::utils::has_duplicates;
use ludo::utils::hex_to_rgb;
use ludo::utils::next_with_wrap;
use ludo::utils::previous_with_wrap;
use ludo::utils::rgb_to_hex;
use ludo::utils::roll_dice;

#[test]
fn indices_wrap_round_a_collection() {
    let three = vec!['a', 'b', 'c'];
    assert_eq!(next_with_wrap(0, &three), 1);
    assert_eq!(next_with_wrap(2, &three), 0);
    assert_eq!(next_with_wrap(7, &three), 2);
    assert_eq!(previous_with_wrap(0, &three), 2);
    assert_eq!(previous_with_wrap(2, &three), 1);
    assert_eq!(previous_with_wrap(1, &vec![9]), 0);
}

#[test]
fn the_dice_show_one_to_six() {
    let mut seen = [0usize; 7];
    for _ in 0..600 {
        let roll = roll_dice();
        assert!(roll >= 1 && roll <= 6);
        seen[roll] += 1;
    }
    assert!(seen[1..].iter().filter(|count| **count > 0).count() >= 2);
}

#[test]
fn duplicates_are_found_in_lists_and_maps() {
    assert!(!has_duplicates(&Vec::<u8>::new()));
    assert!(!has_duplicates(&vec![3, 1, 2]));
    assert!(has_duplicates(&vec![3, 1, 3]));
    assert!(has_duplicates(&vec!["a", "b", "b"]));
    assert!(!has_duplicates(&vec![PawnColor::RED, PawnColor::BLUE]));

    let mut rolls: BTreeMap<usize, usize> = BTreeMap::new();
    assert!(!has_duplicate_values(&rolls));
    rolls.insert(0, 4);
    rolls.insert(1, 6);
    rolls.insert(3, 2);
    assert!(!has_duplicate_values(&rolls));
    rolls.insert(2, 6);
    assert!(has_duplicate_values(&rolls));
    rolls.insert(1, 1);
    assert!(!has_duplicate_values(&rolls));
    rolls.insert(0, 2);
    assert!(has_duplicate_values(&rolls));
    let mut far: BTreeMap<usize, usize> = BTreeMap::new();
    far.insert(1000, 7);
    far.insert(usize::MAX, 8);
    assert!(!has_duplicate_values(&far));
    far.insert(5, 8);
    assert!(has_duplicate_values(&far));

    let mut colors: BTreeMap<u8, PawnColor> = BTreeMap::new();
    colors.insert(1, PawnColor::RED);
    colors.insert(2, PawnColor::BLUE);
    assert!(!has_duplicate_values(&colors));
    colors.insert(9, PawnColor::RED);
    assert!(has_duplicate_values(&colors));
    let mut names: BTreeMap<char, String> = BTreeMap::new();
    names.insert('a', String::from("one"));
    names.insert('b', String::from("two"));
    assert!(!has_duplicate_values(&names));
    names.insert('c', String::from("one"));
    assert!(has_duplicate_values(&names));
}

#[test]
fn colour_codes_are_a_hash_and_three_pairs() {
    assert_eq!(hex_to_rgb("#ff0000"), Ok((255, 0, 0)));
    assert_eq!(hex_to_rgb("#013220"), Ok((1, 50, 32)));
    assert_eq!(hex_to_rgb("#F6BE00"), Ok((246, 190, 0)));
    assert_eq!(hex_to_rgb("#aBcDeF"), Ok((171, 205, 239)));
    assert_eq!(hex_to_rgb("#+a+0+F"), Ok((10, 0, 15)));
    assert_eq!(hex_to_rgb("ff0000"), Err("Invalid hex color code".to_string()));
    assert_eq!(hex_to_rgb("#ff000"), Err("Invalid hex color code".to_string()));
    assert_eq!(hex_to_rgb("#ff00000"), Err("Invalid hex color code".to_string()));
    assert_eq!(hex_to_rgb(""), Err("Invalid hex color code".to_string()));
    assert_eq!(hex_to_rgb("0ff0000"), Err("Invalid hex color code".to_string()));
    assert_eq!(hex_to_rgb("#gg0000"), Err("invalid digit found in string".to_string()));
    assert_eq!(hex_to_rgb("#ff00-1"), Err("invalid digit found in string".to_string()));
    assert_eq!(hex_to_rgb("#ff 000"), Err("invalid digit found in string".to_string()));
    assert_eq!(hex_to_rgb("#f+0000"), Err("invalid digit found in string".to_string()));
    assert_eq!(hex_to_rgb("#éé12"), Err("invalid digit found in string".to_string()));
}

#[test]
fn colour_codes_read_back() {
    assert_eq!(rgb_to_hex(255, 0, 0), "#FF0000");
    assert_eq!(rgb_to_hex(1, 50, 32), "#013220");
    assert_eq!(rgb_to_hex(246, 190, 0), "#F6BE00");
    assert_eq!(rgb_to_hex(0, 0, 0), "#000000");
    for (r, g, b) in [(0, 0, 0), (255, 255, 255), (18, 52, 86), (171, 205, 239), (9, 10, 15)] {
        assert_eq!(hex_to_rgb(&rgb_to_hex(r, g, b)), Ok((r, g, b)));
    }
}

#[test]
fn numbers_are_written_in_base_ten() {
    assert_eq!(number_text(0), "0");
    assert_eq!(number_text(7), "7");
    assert_eq!(number_text(10), "10");
    assert_eq!(number_text(43), "43");
    assert_eq!(number_text(1905), "1905");
    assert_eq!(number_text(usize::MAX), usize::MAX.to_string());
}

#[test]
fn saves_live_in_the_save_directory() {
    assert_eq!(SAVE_FILE_PATH, "./save_files");
    assert_eq!(save_path("first"), "./save_files/first.json");
    assert_eq!(saved_file_path("first.json"), "./save_files/first.json");
    assert_eq!(save_file_name(&"game_1".to_string()), "game_1.json");
    assert!(text_is(&"LOAD".to_string(), "LOAD"));
    assert!(!text_is(&"LOAD".to_string(), "EXIT"));
}

#[test]
fn fields_are_drawn_round_their_middle() {
    assert_eq!(get_field("███"), "  ███\n███████\n  ███");
    assert_eq!(get_field(" 3 "), "  ███\n██ 3 ██\n  ███");
    assert_eq!(get_field(""), "  ███\n████\n  ███");
    let pawn = Pawn::new(0, PawnColor::GREEN, 1, (0, 11));
    assert_eq!(pawn_label(&pawn), "  ███\n██ 1 ██\n  ███");
    let pawn = Pawn::new(3, PawnColor::GREEN, 1, (1, 12));
    assert_eq!(pawn_label(&pawn), get_field(" 4 "));
}

#[test]
fn refusals_read_as_sentences() {
    assert_eq!(
        BadMoveType::DidntRoll6.to_string(),
        "You selected a home field without getting 6!"
    );
    assert_eq!(BadMoveType::StartOccupied.to_string(), "Start field is occupied!");
    assert_eq!(
        BadMoveType::WrongStart.to_string(),
        "Invalid start! You can only start on your own start position."
    );
    assert_eq!(
        BadMoveType::UnreachableField.to_string(),
        "Selected field is unreachable with current roll."
    );
    assert_eq!(
        BadMoveType::CantEatOwnPawn.to_string(),
        "You can't move to your own pawn's field!"
    );
    assert_eq!(
        BadMoveType::CantSkipSafehousePawn.to_string(),
        "You can't move past your own pawn in the safehouse!"
    );
    assert_eq!(
        BadMoveType::Generic.to_string(),
        "Generic error :( I coded something wrong..."
    );
    assert_eq!(NoValidMoveType::NoPawnsNot6.to_string(), "you have no pawns on field");
    assert_eq!(NoValidMoveType::StarOccupied.to_string(), "start field is occupied");
}

#[test]
fn the_app_starts_on_the_main_menu() {
    let mut app = App::new();
    assert!(!app.should_quit);
    assert_eq!(app.current_screen, CurrentScreen::MainMenu);
    app.tick();
    assert!(!app.should_quit);
    app.quit();
    assert!(app.should_quit);
    assert_eq!(app.current_screen, CurrentScreen::MainMenu);
}

#[test]
fn buttons_are_built_step_by_step() {
    let mut button: Button<usize> = Button::new("3").value(3).theme(Theme::yellow()).state(
        ButtonState::Active,
    );
    assert_eq!(button.label, "3");
    assert_eq!(button.value, 3);
    assert_eq!(button.get_value(), 3);
    assert_eq!(button.theme, Theme::yellow());
    assert_eq!(button.state, ButtonState::Active);
    assert_eq!(button.colors(), (
        Rgb { r: 0, g: 0, b: 0 },
        Rgb { r: 255, g: 185, b: 0 },
        Rgb { r: 16, g: 48, b: 16 },
    ));
    button.set_state(ButtonState::Selected);
    assert_eq!(button.colors().1, Rgb { r: 240, g: 195, b: 40 });
    button.set_state(ButtonState::Normal);
    assert_eq!(button.colors().1, Rgb { r: 140, g: 110, b: 20 });
    button.set_theme(Theme::gray());
    assert_eq!(button.colors().1, Rgb { r: 16, g: 48, b: 16 });
    button.set_label("Player 1".to_string());
    assert_eq!(button.label, "Player 1");
    assert_eq!(button.value, 3);
    let plain: Button<PawnColor> = Button::new("Red");
    assert_eq!(plain.theme, Theme::blue());
    assert_eq!(plain.state, ButtonState::Normal);
    assert_eq!(Theme::red().border_active, Rgb { r: 220, g: 20, b: 20 });
    assert_eq!(Theme::green().text, Rgb { r: 16, g: 48, b: 16 });
    assert_eq!(Theme::matrix_green().border_selected, Rgb { r: 0, g: 255, b: 65 });
    assert_eq!(ButtonState::Selected.to_string(), "Selected");
}

#[test]
fn a_bare_game_has_an_empty_ring() {
    let game = Game::new();
    assert!(game.players.is_empty());
    assert_eq!(game.fields.len(), 40);
    assert!(game.fields.iter().all(|field| field.is_none()));
    let circle = Circle::new(PawnColor::BLUE, 5, 3);
    assert_eq!(circle, Circle { color: PawnColor::BLUE, width: 5, height: 3 });
}
