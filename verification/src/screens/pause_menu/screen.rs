use vstd::prelude::*;

use super::fs::copy_files;
use super::fs::FileInfo;
use super::load_handler::LoadHandler;
use super::load_handler::LoadState;
use super::save_handler::SaveHandler;
use super::save_handler::SaveState;
use crate::custom_widgets::button::Button;
use crate::custom_widgets::button::ButtonState;
use crate::custom_widgets::button::Theme;
use crate::event::KeyInput;

verus! {

/// What a button of the pause menu stands for.
#[derive(Debug, Default, Clone, Copy, PartialEq, Eq, PartialOrd, Ord, Structural)]
pub enum PauseMenuButton {
    #[default]
    Resume,
    Save,
    Load,
    Exit,
}

/// Where the pause menu stands.
#[derive(Debug, Default, Clone, Copy, PartialEq, Eq, PartialOrd, Ord, Structural)]
pub enum PauseMenuState {
    #[default]
    Resume,
    Saving,
    Saved,
    Loading,
    Loaded,
    Wait,
    Exit,
}

/// The pause menu: four buttons, one of them selected, and the two dialogs.
#[derive(Debug, Default)]
pub struct PauseMenu {
    pub buttons: Vec<Button<PauseMenuButton>>,
    pub selected_button_id: usize,
    pub should_quit: bool,
    pub state: PauseMenuState,
    pub save_state: SaveState,
    pub load_state: LoadState,
}

/// What the button selected with Enter makes of the menu.
pub open spec fn state_for(button: PauseMenuButton) -> PauseMenuState {
    match button {
        PauseMenuButton::Resume => PauseMenuState::Resume,
        PauseMenuButton::Save => PauseMenuState::Saving,
        PauseMenuButton::Load => PauseMenuState::Loading,
        PauseMenuButton::Exit => PauseMenuState::Exit,
    }
}

/// The buttons after the selection has gone from `from` to `to`: where `to` names a
/// button, that one is selected and the one at `from`, if different, is back to normal.
pub open spec fn reselected<T>(buttons: Seq<Button<T>>, from: int, to: int) -> Seq<Button<T>> {
    let cleared = if 0 <= from < buttons.len() {
        buttons.update(from, Button { state: ButtonState::Normal, ..buttons[from] })
    } else {
        buttons
    };
    if 0 <= to < buttons.len() {
        cleared.update(to, Button { state: ButtonState::Selected, ..cleared[to] })
    } else {
        cleared
    }
}

impl PauseMenu {
    /// The menu has buttons and one of them is selected.
    pub open spec fn wf(self) -> bool {
        self.selected_button_id < self.buttons.len()
    }

    /// The menu as it opens: Resume selected, waiting for a key.
    pub open spec fn is_opening(self, save_files: Seq<FileInfo>) -> bool {
        &&& self.buttons.len() == 4
        &&& self.buttons[0].label@ == "Resume"@
        &&& self.buttons[0].value == PauseMenuButton::Resume
        &&& self.buttons[0].theme == Theme::green()
        &&& self.buttons[0].state == ButtonState::Selected
        &&& self.buttons[1].label@ == "Save"@
        &&& self.buttons[1].value == PauseMenuButton::Save
        &&& self.buttons[1].theme == Theme::blue()
        &&& self.buttons[1].state == ButtonState::Normal
        &&& self.buttons[2].label@ == "Load"@
        &&& self.buttons[2].value == PauseMenuButton::Load
        &&& self.buttons[2].theme == Theme::blue()
        &&& self.buttons[2].state == ButtonState::Normal
        &&& self.buttons[3].label@ == "Exit"@
        &&& self.buttons[3].value == PauseMenuButton::Exit
        &&& self.buttons[3].theme == Theme::red()
        &&& self.buttons[3].state == ButtonState::Normal
        &&& self.selected_button_id == 0
        &&& !self.should_quit
        &&& self.state == PauseMenuState::Wait
        &&& self.save_state.is_opening(save_files)
        &&& self.load_state.is_opening(save_files)
    }

    /// What a key makes of the menu while the menu itself has the keys, given the saves
    /// on disk: the arrows move the selection, Escape resumes, Enter takes the selected
    /// button and opens the save dialog afresh.
    pub open spec fn menu_keyed(
        before: PauseMenu,
        after: PauseMenu,
        key_event: KeyInput,
        save_files: Seq<FileInfo>,
    ) -> bool {
        let moved_to = |to: int|
            {
                &&& after.buttons@ == reselected(
                    before.buttons@,
                    before.selected_button_id as int,
                    to,
                )
                &&& after.selected_button_id == to
                &&& after.state == PauseMenuState::Wait
                &&& after.should_quit == before.should_quit
                &&& after.save_state == before.save_state
                &&& after.load_state == before.load_state
            };
        match key_event {
            KeyInput::Up => moved_to(
                (before.selected_button_id + before.buttons.len() - 1) % (
                before.buttons.len() as int),
            ),
            KeyInput::Down => moved_to(
                (before.selected_button_id + 1) % (before.buttons.len() as int),
            ),
            KeyInput::Esc => after == (PauseMenu { state: PauseMenuState::Resume, ..before }),
            KeyInput::Enter => {
                &&& after.buttons == before.buttons
                &&& after.selected_button_id == before.selected_button_id
                &&& after.should_quit
                &&& after.state == state_for(
                    before.buttons[before.selected_button_id as int].value,
                )
                &&& after.save_state.is_opening(save_files)
                &&& after.load_state == before.load_state
            },
            _ => after == before,
        }
    }

    /// What a key makes of the menu, given the saves on disk, and the file that it hands
    /// back for removal: the save dialog has the keys while the menu is saving or has
    /// saved, the load dialog while it is loading or has loaded, the menu itself
    /// otherwise.
    pub open spec fn keyed(
        before: PauseMenu,
        after: PauseMenu,
        key_event: KeyInput,
        save_files: Seq<FileInfo>,
        doomed: Option<String>,
    ) -> bool {
        match before.state {
            PauseMenuState::Saving | PauseMenuState::Saved => SaveHandler::keyed(
                before,
                after,
                key_event,
                save_files,
                doomed,
            ),
            PauseMenuState::Loading | PauseMenuState::Loaded => LoadHandler::keyed(
                before,
                after,
                key_event,
                save_files,
            ) && doomed is None,
            _ => PauseMenu::menu_keyed(before, after, key_event, save_files) && doomed is None,
        }
    }

    /// The menu as it opens, given the saves that are on disk.
    pub fn new(save_files: &Vec<FileInfo>) -> (menu: PauseMenu)
        ensures
            menu.is_opening(save_files@),
            menu.wf(),
    {
        let mut buttons: Vec<Button<PauseMenuButton>> = Vec::new();
        buttons.push(
            Button::new("Resume").value(PauseMenuButton::Resume).theme(Theme::green()).state(
                ButtonState::Selected,
            ),
        );
        buttons.push(
            Button::new("Save").value(PauseMenuButton::Save).theme(Theme::blue()).state(
                ButtonState::Normal,
            ),
        );
        buttons.push(
            Button::new("Load").value(PauseMenuButton::Load).theme(Theme::blue()).state(
                ButtonState::Normal,
            ),
        );
        buttons.push(
            Button::new("Exit").value(PauseMenuButton::Exit).theme(Theme::red()).state(
                ButtonState::Normal,
            ),
        );
        PauseMenu {
            buttons,
            selected_button_id: 0,
            should_quit: false,
            state: PauseMenuState::Wait,
            save_state: SaveState::new(copy_files(save_files)),
            load_state: LoadState::new(copy_files(save_files)),
        }
    }

    /// The button at `index`, if there is one.
    pub fn get_button(&self, index: usize) -> (button: Option<&Button<PauseMenuButton>>)
        ensures
            match button {
                Some(b) => index < self.buttons.len() && *b == self.buttons[index as int],
                None => index >= self.buttons.len(),
            },
    {
        if index < self.buttons.len() {
            Some(&self.buttons[index])
        } else {
            None
        }
    }

    /// The button on which the selection rests.
    pub fn get_selected_button(&self) -> (button: &Button<PauseMenuButton>)
        requires
            self.wf(),
        ensures
            *button == self.buttons[self.selected_button_id as int],
    {
        &self.buttons[self.selected_button_id]
    }

    /// One key press while the menu itself has the keys: the arrows move the selection,
    /// Escape resumes, Enter takes the selected button and opens the save dialog afresh.
    pub fn handle_menu_key_event(&mut self, key_event: KeyInput, save_files: &Vec<FileInfo>)
        requires
            old(self).wf(),
        ensures
            final(self).wf(),
            PauseMenu::menu_keyed(*old(self), *final(self), key_event, save_files@),
    {
        match key_event {
            KeyInput::Up => {
                let to: usize = if self.selected_button_id == 0 {
                    self.buttons.len() - 1
                } else {
                    self.selected_button_id - 1
                };
                assert(to == (self.selected_button_id + self.buttons.len() - 1) % (
                self.buttons.len() as int)) by {
                    let n = self.buttons.len() as int;
                    let i = self.selected_button_id as int;
                    if i == 0 {
                        vstd::arithmetic::div_mod::lemma_small_mod((n - 1) as nat, n as nat);
                    } else {
                        vstd::arithmetic::div_mod::lemma_mod_add_multiples_vanish(i - 1, n);
                        vstd::arithmetic::div_mod::lemma_small_mod((i - 1) as nat, n as nat);
                    }
                }
                self.change_selected_button(to);
                self.state = PauseMenuState::Wait;
            },
            KeyInput::Down => {
                let to: usize = (self.selected_button_id + 1) % self.buttons.len();
                self.change_selected_button(to);
                self.state = PauseMenuState::Wait;
            },
            KeyInput::Esc => {
                self.state = PauseMenuState::Resume;
            },
            KeyInput::Enter => {
                self.handle_enter_press();
                self.save_state = SaveState::new(copy_files(save_files));
            },
            _ => {},
        }
    }

    /// One key press, given the saves now on disk: the save dialog has the keys while
    /// the menu is saving or has saved, the load dialog while it is loading or has
    /// loaded, the menu itself otherwise. Hands back the file to remove, if the key
    /// asks for that.
    pub fn handle_key_event(&mut self, key_event: KeyInput, save_files: &Vec<FileInfo>) -> (doomed:
        Option<String>)
        requires
            old(self).wf(),
        ensures
            final(self).wf(),
            PauseMenu::keyed(*old(self), *final(self), key_event, save_files@, doomed),
    {
        match self.state {
            PauseMenuState::Saving | PauseMenuState::Saved => SaveHandler::handle_key_event(
                self,
                key_event,
                save_files,
            ),
            PauseMenuState::Loading | PauseMenuState::Loaded => {
                LoadHandler::handle_key_event(self, key_event, save_files);
                None
            },
            _ => {
                self.handle_menu_key_event(key_event, save_files);
                None
            },
        }
    }

    /// Takes the selected button.
    fn handle_enter_press(&mut self)
        requires
            old(self).wf(),
        ensures
            *final(self) == (PauseMenu {
                should_quit: true,
                state: state_for(old(self).buttons[old(self).selected_button_id as int].value),
                ..*old(self)
            }),
    {
        if self.selected_button_id < self.buttons.len() {
            self.should_quit = true;
            match self.buttons[self.selected_button_id].value {
                PauseMenuButton::Resume => self.state = PauseMenuState::Resume,
                PauseMenuButton::Save => self.state = PauseMenuState::Saving,
                PauseMenuButton::Load => self.state = PauseMenuState::Loading,
                PauseMenuButton::Exit => self.state = PauseMenuState::Exit,
            }
        } else {
            self.state = PauseMenuState::Wait
        }
    }

    /// Moves the selection to the button at `new_button_id`, if there is one.
    fn change_selected_button(&mut self, new_button_id: usize)
        requires
            old(self).wf(),
        ensures
            final(self).buttons@ == reselected(
                old(self).buttons@,
                old(self).selected_button_id as int,
                new_button_id as int,
            ),
            final(self).selected_button_id == (if new_button_id < old(self).buttons.len() {
                new_button_id
            } else {
                old(self).selected_button_id
            }),
            final(self).should_quit == old(self).should_quit,
            final(self).state == old(self).state,
            final(self).save_state == old(self).save_state,
            final(self).load_state == old(self).load_state,
    {
        if self.selected_button_id < self.buttons.len() {
            self.buttons[self.selected_button_id].state = ButtonState::Normal;
        }
        if new_button_id < self.buttons.len() {
            self.buttons[new_button_id].state = ButtonState::Selected;
            self.selected_button_id = new_button_id;
        }
        assert(self.buttons@ =~= reselected(
            old(self).buttons@,
            old(self).selected_button_id as int,
            new_button_id as int,
        ));
    }
}

} // verus!
