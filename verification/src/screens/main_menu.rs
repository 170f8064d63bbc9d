use vstd::prelude::*;

use crate::app::App;
use crate::app::CurrentScreen;
use crate::custom_widgets::button::Button;
use crate::custom_widgets::button::ButtonState;
use crate::custom_widgets::button::Theme;
use crate::event::KeyInput;
use crate::screens::pause_menu::screen::reselected;
use crate::text::text_is;

verus! {

/// The menu shown when the program starts: new game, load, exit.
pub struct MainMenu {
    pub buttons: Vec<Button<String>>,
    pub selected_button_id: usize,
    pub should_quit: bool,
}

impl MainMenu {
    /// The menu has buttons and one of them is selected.
    pub open spec fn wf(self) -> bool {
        self.selected_button_id < self.buttons.len()
    }

    /// The menu as it opens, with the first button selected.
    pub fn new() -> (menu: MainMenu)
        ensures
            menu.wf(),
            menu.buttons.len() == 3,
            menu.buttons[0].label@ == "New Game"@,
            menu.buttons[0].value@ == "NEWGAME"@,
            menu.buttons[0].theme == Theme::green(),
            menu.buttons[0].state == ButtonState::Selected,
            menu.buttons[1].label@ == "Load"@,
            menu.buttons[1].value@ == "LOAD"@,
            menu.buttons[1].theme == Theme::blue(),
            menu.buttons[1].state == ButtonState::Normal,
            menu.buttons[2].label@ == "Exit"@,
            menu.buttons[2].value@ == "EXIT"@,
            menu.buttons[2].theme == Theme::red(),
            menu.buttons[2].state == ButtonState::Normal,
            menu.selected_button_id == 0,
            !menu.should_quit,
    {
        let mut buttons: Vec<Button<String>> = Vec::new();
        buttons.push(
            Button::new("New Game").value(String::from_str("NEWGAME")).theme(Theme::green()).state(
                ButtonState::Selected,
            ),
        );
        buttons.push(
            Button::new("Load").value(String::from_str("LOAD")).theme(Theme::blue()).state(
                ButtonState::Normal,
            ),
        );
        buttons.push(
            Button::new("Exit").value(String::from_str("EXIT")).theme(Theme::red()).state(
                ButtonState::Normal,
            ),
        );
        MainMenu { buttons, selected_button_id: 0, should_quit: false }
    }

    /// The button at `index`, if there is one.
    pub fn get_button(&self, index: usize) -> (button: Option<&Button<String>>)
        ensures
            match button {
                Some(b) => index < self.buttons.len() && *b == self.buttons[index as int],
                None => index >= self.buttons.len(),
            },
    {
        if index < self.buttons.len() {
            Some(&self.buttons[index])
        } else {
            None
        }
    }

    /// One key press: the arrows move the selection, Enter takes the selected button.
    /// A new game and a load both open the game scene; exit ends the program.
    pub fn handle_key_event(&mut self, key_event: KeyInput, app: &mut App)
        requires
            old(self).wf(),
        ensures
            final(self).wf(),
            match key_event {
                KeyInput::Up => {
                    let to = (old(self).selected_button_id + old(self).buttons.len() - 1) % (old(
                        self,
                    ).buttons.len() as int);
                    &&& final(self).buttons@ == reselected(
                        old(self).buttons@,
                        old(self).selected_button_id as int,
                        to,
                    )
                    &&& final(self).selected_button_id == to
                    &&& final(self).should_quit == old(self).should_quit
                    &&& *final(app) == *old(app)
                },
                KeyInput::Down => {
                    let to = (old(self).selected_button_id + 1) % (old(self).buttons.len() as int);
                    &&& final(self).buttons@ == reselected(
                        old(self).buttons@,
                        old(self).selected_button_id as int,
                        to,
                    )
                    &&& final(self).selected_button_id == to
                    &&& final(self).should_quit == old(self).should_quit
                    &&& *final(app) == *old(app)
                },
                KeyInput::Enter => {
                    let chosen = old(self).buttons[old(self).selected_button_id as int].value@;
                    &&& final(self).buttons == old(self).buttons
                    &&& final(self).selected_button_id == old(self).selected_button_id
                    &&& final(self).should_quit
                    &&& final(app).current_screen == (if chosen == "NEWGAME"@ || chosen == "LOAD"@ {
                        CurrentScreen::GameScene
                    } else {
                        old(app).current_screen
                    })
                    &&& final(app).should_quit == (old(app).should_quit || (chosen != "NEWGAME"@
                        && chosen != "LOAD"@ && chosen == "EXIT"@))
                },
                _ => *final(self) == *old(self) && *final(app) == *old(app),
            },
    {
        match key_event {
            KeyInput::Up => {
                let to: usize = if self.selected_button_id == 0 {
                    self.buttons.len() - 1
                } else {
                    self.selected_button_id - 1
                };
                assert(to == (self.selected_button_id + self.buttons.len() - 1) % (
                self.buttons.len() as int)) by {
                    let n = self.buttons.len() as int;
                    let i = self.selected_button_id as int;
                    if i == 0 {
                        vstd::arithmetic::div_mod::lemma_small_mod((n - 1) as nat, n as nat);
                    } else {
                        vstd::arithmetic::div_mod::lemma_mod_add_multiples_vanish(i - 1, n);
                        vstd::arithmetic::div_mod::lemma_small_mod((i - 1) as nat, n as nat);
                    }
                }
                self.change_selected_button(to)
            },
            KeyInput::Down => {
                let to: usize = (self.selected_button_id + 1) % self.buttons.len();
                self.change_selected_button(to)
            },
            KeyInput::Enter => self.handle_enter_press(app),
            _ => {},
        }
    }

    /// Takes the selected button.
    fn handle_enter_press(&mut self, app: &mut App)
        requires
            old(self).wf(),
        ensures
            final(self).buttons == old(self).buttons,
            final(self).selected_button_id == old(self).selected_button_id,
            final(self).should_quit,
            ({
                let chosen = old(self).buttons[old(self).selected_button_id as int].value@;
                &&& final(app).current_screen == (if chosen == "NEWGAME"@ || chosen == "LOAD"@ {
                    CurrentScreen::GameScene
                } else {
                    old(app).current_screen
                })
                &&& final(app).should_quit == (old(app).should_quit || (chosen != "NEWGAME"@
                    && chosen != "LOAD"@ && chosen == "EXIT"@))
            }),
    {
        if self.selected_button_id < self.buttons.len() {
            self.should_quit = true;
            let chosen: &String = &self.buttons[self.selected_button_id].value;
            if text_is(chosen, "NEWGAME") {
                app.current_screen = CurrentScreen::GameScene;
            } else if text_is(chosen, "LOAD") {
                app.current_screen = CurrentScreen::GameScene;
            } else if text_is(chosen, "EXIT") {
                app.should_quit = true;
            }
        }
    }

    /// Moves the selection to the button at `new_button_id`, if there is one.
    fn change_selected_button(&mut self, new_button_id: usize)
        requires
            old(self).wf(),
        ensures
            final(self).buttons@ == reselected(
                old(self).buttons@,
                old(self).selected_button_id as int,
                new_button_id as int,
            ),
            final(self).selected_button_id == (if new_button_id < old(self).buttons.len() {
                new_button_id
            } else {
                old(self).selected_button_id
            }),
            final(self).should_quit == old(self).should_quit,
    {
        if self.selected_button_id < self.buttons.len() {
            self.buttons[self.selected_button_id].state = ButtonState::Normal;
        }
        if new_button_id < self.buttons.len() {
            self.buttons[new_button_id].state = ButtonState::Selected;
            self.selected_button_id = new_button_id;
        }
        assert(self.buttons@ =~= reselected(
            old(self).buttons@,
            old(self).selected_button_id as int,
            new_button_id as int,
        ));
    }
}

} // verus!
