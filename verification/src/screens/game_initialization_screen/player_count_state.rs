use vstd::prelude::*;

use crate::custom_widgets::button::Button;
use crate::custom_widgets::button::ButtonState;
use crate::custom_widgets::button::Theme;

verus! {

/// The choice of the number of players: two, three or four.
#[derive(Debug, Clone, PartialEq)]
pub struct PlayerCountState {
    pub curr_id: usize,
    pub selected_player_count: usize,
    pub options: Vec<Button<usize>>,
}

impl PlayerCountState {
    /// The three buttons stand for two, three and four players, the selection rests on
    /// one of them, and the number chosen, if any, is one of these.
    pub open spec fn wf(self) -> bool {
        &&& self.options.len() == 3
        &&& self.options[0].value == 2
        &&& self.options[1].value == 3
        &&& self.options[2].value == 4
        &&& self.curr_id < 3
        &&& (self.selected_player_count == 0 || 2 <= self.selected_player_count <= 4)
    }

    /// The choice before any key: nothing chosen, the selection on the first of three
    /// buttons, which stand for two, three and four players, the first green and the
    /// others yellow, all of them active.
    pub open spec fn is_opening(self) -> bool {
        &&& self.curr_id == 0
        &&& self.selected_player_count == 0
        &&& self.options.len() == 3
        &&& self.options[0].label@ == "2"@
        &&& self.options[0].value == 2
        &&& self.options[0].theme == Theme::green()
        &&& self.options[0].state == ButtonState::Active
        &&& self.options[1].label@ == "3"@
        &&& self.options[1].value == 3
        &&& self.options[1].theme == Theme::yellow()
        &&& self.options[1].state == ButtonState::Active
        &&& self.options[2].label@ == "4"@
        &&& self.options[2].value == 4
        &&& self.options[2].theme == Theme::yellow()
        &&& self.options[2].state == ButtonState::Active
    }

    /// The choice before any key: nothing chosen, the selection on the first button.
    pub fn new() -> (state: PlayerCountState)
        ensures
            state.is_opening(),
            state.wf(),
            state.curr_id == 0,
            state.selected_player_count == 0,
            state.options[0].label@ == "2"@,
            state.options[1].label@ == "3"@,
            state.options[2].label@ == "4"@,
            state.options[0].theme == Theme::green(),
            state.options[1].theme == Theme::yellow(),
            state.options[2].theme == Theme::yellow(),
            forall|i: int| 0 <= i < 3 ==> (#[trigger] state.options[i]).state == ButtonState::Active,
    {
        let mut options: Vec<Button<usize>> = Vec::new();
        options.push(Button::new("2").value(2).theme(Theme::green()).state(ButtonState::Active));
        options.push(Button::new("3").value(3).theme(Theme::yellow()).state(ButtonState::Active));
        options.push(Button::new("4").value(4).theme(Theme::yellow()).state(ButtonState::Active));
        PlayerCountState { curr_id: 0, selected_player_count: 0, options }
    }
}

} // verus!
