use vstd::prelude::*;

use crate::custom_widgets::button::Button;
use crate::custom_widgets::button::ButtonState;
use crate::custom_widgets::button::Theme;
use crate::entities::pawn::PawnColor;

verus! {

/// The colour that the button at `index` offers.
pub open spec fn color_at(index: int) -> PawnColor {
    if index == 0 {
        PawnColor::RED
    } else if index == 1 {
        PawnColor::GREEN
    } else if index == 2 {
        PawnColor::BLUE
    } else {
        PawnColor::YELLOW
    }
}

/// The four buttons offer the four colours in their order round the board.
pub open spec fn offers_all_colors(options: Seq<Button<PawnColor>>) -> bool {
    &&& options.len() == 4
    &&& forall|i: int| 0 <= i < 4 ==> (#[trigger] options[i]).value == color_at(i)
}

/// The colour buttons before any choice: one for each colour, named after it and in
/// its theme, red selected and the others normal.
pub open spec fn are_default_color_buttons(options: Seq<Button<PawnColor>>) -> bool {
    &&& options.len() == 4
    &&& options[0].label@ == "Red"@
    &&& options[0].value == PawnColor::RED
    &&& options[0].theme == Theme::red()
    &&& options[0].state == ButtonState::Selected
    &&& options[1].label@ == "Green"@
    &&& options[1].value == PawnColor::GREEN
    &&& options[1].theme == Theme::green()
    &&& options[1].state == ButtonState::Normal
    &&& options[2].label@ == "Blue"@
    &&& options[2].value == PawnColor::BLUE
    &&& options[2].theme == Theme::blue()
    &&& options[2].state == ButtonState::Normal
    &&& options[3].label@ == "Yellow"@
    &&& options[3].value == PawnColor::YELLOW
    &&& options[3].theme == Theme::yellow()
    &&& options[3].state == ButtonState::Normal
}

/// The colour buttons before any choice: red selected, the others normal.
pub fn get_default_player_color_buttons_state() -> (options: Vec<Button<PawnColor>>)
    ensures
        are_default_color_buttons(options@),
        offers_all_colors(options@),
        options[0].label@ == "Red"@,
        options[1].label@ == "Green"@,
        options[2].label@ == "Blue"@,
        options[3].label@ == "Yellow"@,
        options[0].theme == Theme::red(),
        options[1].theme == Theme::green(),
        options[2].theme == Theme::blue(),
        options[3].theme == Theme::yellow(),
        options[0].state == ButtonState::Selected,
        forall|i: int| 1 <= i < 4 ==> (#[trigger] options[i]).state == ButtonState::Normal,
{
    let mut options: Vec<Button<PawnColor>> = Vec::new();
    options.push(
        Button::new("Red").value(PawnColor::RED).theme(Theme::red()).state(ButtonState::Selected),
    );
    options.push(
        Button::new("Green").value(PawnColor::GREEN).theme(Theme::green()).state(
            ButtonState::Normal,
        ),
    );
    options.push(
        Button::new("Blue").value(PawnColor::BLUE).theme(Theme::blue()).state(ButtonState::Normal),
    );
    options.push(
        Button::new("Yellow").value(PawnColor::YELLOW).theme(Theme::yellow()).state(
            ButtonState::Normal,
        ),
    );
    options
}

/// The choice of colours: which player chooses, which colours are taken, and the four
/// buttons.
#[derive(Debug, Clone, PartialEq)]
pub struct PlayerPawnColorState {
    /// Number of the player who is to choose, from one.
    pub label: usize,
    pub curr_id: usize,
    pub curr_player_id: usize,
    pub taken: Vec<PawnColor>,
    pub options: Vec<Button<PawnColor>>,
}

impl PlayerPawnColorState {
    /// The buttons offer the four colours, the selection rests on one of them, and no
    /// colour is taken twice.
    pub open spec fn wf(self) -> bool {
        &&& offers_all_colors(self.options@)
        &&& self.curr_id < 4
        &&& self.curr_player_id < 4
        &&& self.taken@.no_duplicates()
        &&& self.label < usize::MAX
    }

    /// The choice before any key: the first player is to choose, no colour is taken, and
    /// the buttons are as they are before any choice.
    pub open spec fn is_opening(self) -> bool {
        &&& self.label == 1
        &&& self.curr_id == 0
        &&& self.curr_player_id == 0
        &&& self.taken@ == Seq::<PawnColor>::empty()
        &&& are_default_color_buttons(self.options@)
    }

    /// The choice before any key.
    pub fn new() -> (state: PlayerPawnColorState)
        ensures
            state.is_opening(),
            state.wf(),
            state.label == 1,
            state.curr_id == 0,
            state.curr_player_id == 0,
            state.taken@ == Seq::<PawnColor>::empty(),
            state.options[0].state == ButtonState::Selected,
            forall|i: int| 1 <= i < 4 ==> (#[trigger] state.options[i]).state == ButtonState::Normal,
    {
        PlayerPawnColorState {
            label: 1,
            curr_id: 0,
            curr_player_id: 0,
            taken: Vec::new(),
            options: get_default_player_color_buttons_state(),
        }
    }

    /// Puts the buttons back as they were before any choice.
    pub fn reset_options(&mut self)
        ensures
            are_default_color_buttons(final(self).options@),
            offers_all_colors(final(self).options@),
            final(self).options[0].state == ButtonState::Selected,
            forall|i: int| 1 <= i < 4 ==> (#[trigger] final(self).options[i]).state == ButtonState::Normal,
            final(self).label == old(self).label,
            final(self).curr_id == old(self).curr_id,
            final(self).curr_player_id == old(self).curr_player_id,
            final(self).taken == old(self).taken,
    {
        self.options = get_default_player_color_buttons_state();
    }

    /// The buttons as they are before any choice.
    pub fn get_default_options(&self) -> (options: Vec<Button<PawnColor>>)
        ensures
            are_default_color_buttons(options@),
            offers_all_colors(options@),
            options[0].state == ButtonState::Selected,
            forall|i: int| 1 <= i < 4 ==> (#[trigger] options[i]).state == ButtonState::Normal,
    {
        get_default_player_color_buttons_state()
    }
}

} // verus!
