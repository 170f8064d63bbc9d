use vstd::prelude::*;

use super::fs::contains_file;
use super::fs::copy_files;
use super::fs::has_file;
use super::fs::FileInfo;
use super::screen::PauseMenu;
use super::screen::PauseMenuState;
use crate::event::KeyInput;
use crate::text::char_is_alphanumeric;
use crate::text::is_name_char;
use crate::text::pop_char;
use crate::text::push_char;
use crate::text::save_file_name;
use crate::text::save_file_of;

verus! {

/// What the load dialog holds: the saves on disk when it was opened, the name typed so
/// far, and the line shown to the player.
#[derive(Debug, Default)]
pub struct LoadState {
    pub save_files: Vec<FileInfo>,
    pub load_file_name: String,
    pub message: String,
}

impl LoadState {
    /// The dialog as it opens, given the saves that are on disk.
    pub open spec fn is_opening(self, save_files: Seq<FileInfo>) -> bool {
        &&& self.save_files@ == save_files
        &&& self.load_file_name@ == ""@
        &&& self.message@
            == "Enter save file name to load. Press ESC to go back or ENTER to confirm."@
    }

    /// The dialog as it opens, given the saves that are on disk.
    pub fn new(save_files: Vec<FileInfo>) -> (state: LoadState)
        ensures
            state.is_opening(save_files@),
    {
        LoadState {
            save_files,
            load_file_name: String::from_str(""),
            message: String::from_str(
                "Enter save file name to load. Press ESC to go back or ENTER to confirm.",
            ),
        }
    }
}

/// The keys of the load dialog.
pub struct LoadHandler;

/// `after` is `before` but for the load dialog and the state of the menu.
pub open spec fn only_load_dialog_differs(before: PauseMenu, after: PauseMenu) -> bool {
    &&& after.buttons == before.buttons
    &&& after.selected_button_id == before.selected_button_id
    &&& after.should_quit == before.should_quit
    &&& after.save_state == before.save_state
}

impl LoadHandler {
    /// What Enter makes of the menu while the load dialog has the keys, given the saves
    /// on disk: where a save of the typed name exists the menu goes to `Loaded`;
    /// otherwise the name is cleared.
    pub open spec fn loaded(before: PauseMenu, after: PauseMenu, save_files: Seq<FileInfo>) -> bool {
        let name = before.load_state.load_file_name@;
        &&& only_load_dialog_differs(before, after)
        &&& after.load_state.save_files == before.load_state.save_files
        &&& if name.len() == 0 {
            &&& after.load_state.message@ == "Please enter a name!"@
            &&& after.load_state.load_file_name@ == name
            &&& after.state == before.state
        } else if has_file(save_files, save_file_of(name)) {
            &&& after.load_state.message@ == "Successfully loaded!"@
            &&& after.load_state.load_file_name@ == name
            &&& after.state == PauseMenuState::Loaded
        } else {
            &&& after.load_state.message@ == "File with that name doesn't exist."@
            &&& after.load_state.load_file_name@ == ""@
            &&& after.state == before.state
        }
    }

    /// What a key makes of the menu while the load dialog has the keys, given the saves
    /// on disk. A letter, a number or an underscore is added to the name; Backspace takes
    /// the last character away; Escape closes the dialog; Enter loads.
    pub open spec fn keyed(
        before: PauseMenu,
        after: PauseMenu,
        key_event: KeyInput,
        save_files: Seq<FileInfo>,
    ) -> bool {
        let typed = before.load_state.load_file_name@;
        let same_dialog_but_name = {
            &&& only_load_dialog_differs(before, after)
            &&& after.load_state.message == before.load_state.message
            &&& after.load_state.save_files == before.load_state.save_files
            &&& after.state == before.state
        };
        match key_event {
            KeyInput::Char(c) => if is_name_char(c) {
                same_dialog_but_name && after.load_state.load_file_name@ == typed.push(c)
            } else {
                after == before
            },
            KeyInput::Backspace => same_dialog_but_name && after.load_state.load_file_name@ == (
            if typed.len() > 0 {
                typed.drop_last()
            } else {
                typed
            }),
            KeyInput::Esc => {
                &&& only_load_dialog_differs(before, after)
                &&& after.load_state.is_opening(save_files)
                &&& after.state == PauseMenuState::Wait
            },
            KeyInput::Enter => LoadHandler::loaded(before, after, save_files),
            _ => after == before,
        }
    }

    /// Enter in the load dialog, given the saves now on disk. Where a save of the typed
    /// name exists the menu goes to `Loaded`, on which the match is read from that save;
    /// otherwise the name is cleared.
    pub fn handle_load(pause_menu: &mut PauseMenu, save_files: &Vec<FileInfo>)
        ensures
            LoadHandler::loaded(*old(pause_menu), *final(pause_menu), save_files@),
    {
        if pause_menu.load_state.load_file_name.as_str().is_empty() {
            pause_menu.load_state.message = String::from_str("Please enter a name!");
            return ;
        }
        let full_file_name: String = save_file_name(&pause_menu.load_state.load_file_name);

        if contains_file(save_files, &full_file_name) {
            pause_menu.load_state.message = String::from_str("Successfully loaded!");
            pause_menu.state = PauseMenuState::Loaded;
        } else {
            pause_menu.load_state.message = String::from_str("File with that name doesn't exist.");
            pause_menu.load_state.load_file_name = String::from_str("");
        }
    }

    /// One key press in the load dialog, given the saves now on disk.
    pub fn handle_key_event(pause_menu: &mut PauseMenu, key_event: KeyInput, save_files: &Vec<FileInfo>)
        ensures
            LoadHandler::keyed(*old(pause_menu), *final(pause_menu), key_event, save_files@),
    {
        match key_event {
            KeyInput::Char(c) => {
                if char_is_alphanumeric(c) || c == '_' {
                    push_char(&mut pause_menu.load_state.load_file_name, c);
                }
            },
            KeyInput::Backspace => {
                pop_char(&mut pause_menu.load_state.load_file_name);
            },
            KeyInput::Esc => {
                pause_menu.load_state = LoadState::new(copy_files(save_files));
                pause_menu.state = PauseMenuState::Wait;
            },
            KeyInput::Enter => Self::handle_load(pause_menu, save_files),
            _ => {},
        }
    }
}

} // verus!
