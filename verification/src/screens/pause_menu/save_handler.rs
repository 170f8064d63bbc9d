use vstd::prelude::*;

use super::fs::contains_file;
use super::fs::copy_files;
use super::fs::has_file;
use super::fs::FileInfo;
use super::screen::PauseMenu;
use super::screen::PauseMenuState;
use crate::event::KeyInput;
use crate::text::char_is_alphanumeric;
use crate::text::is_name_char;
use crate::text::pop_char;
use crate::text::push_char;
use crate::text::save_file_name;
use crate::text::save_file_of;

verus! {

/// What the save dialog holds: the saves on disk when it was opened, the name typed so
/// far, the line shown to the player, and whether Enter deletes instead of saving.
#[derive(Debug, Default)]
pub struct SaveState {
    pub save_files: Vec<FileInfo>,
    pub save_file_name: String,
    pub message: String,
    pub is_deleting: bool,
}

impl SaveState {
    /// The dialog as it opens, given the saves that are on disk.
    pub open spec fn is_opening(self, save_files: Seq<FileInfo>) -> bool {
        &&& self.save_files@ == save_files
        &&& self.save_file_name@ == ""@
        &&& self.message@
            == "Enter save file name. Press ESC to go back, ENTER to confirm or - to enter delete mode."@
        &&& !self.is_deleting
    }

    /// The dialog as it opens, given the saves that are on disk.
    pub fn new(save_files: Vec<FileInfo>) -> (state: SaveState)
        ensures
            state.is_opening(save_files@),
    {
        SaveState {
            save_files,
            save_file_name: String::from_str(""),
            message: String::from_str(
                "Enter save file name. Press ESC to go back, ENTER to confirm or - to enter delete mode.",
            ),
            is_deleting: false,
        }
    }
}

/// The keys of the save dialog.
pub struct SaveHandler;

/// `after` is `before` but for the save dialog and the state of the menu.
pub open spec fn only_save_dialog_differs(before: PauseMenu, after: PauseMenu) -> bool {
    &&& after.buttons == before.buttons
    &&& after.selected_button_id == before.selected_button_id
    &&& after.should_quit == before.should_quit
    &&& after.load_state == before.load_state
}

impl SaveHandler {
    /// What Enter in save mode makes of the menu, given the saves on disk: a save is
    /// refused where more than ten are kept, where no name is typed, and where the name
    /// is taken; otherwise the menu goes to `Saved`.
    pub open spec fn saved(before: PauseMenu, after: PauseMenu, save_files: Seq<FileInfo>) -> bool {
        let name = before.save_state.save_file_name@;
        &&& only_save_dialog_differs(before, after)
        &&& after.save_state.save_file_name == before.save_state.save_file_name
        &&& after.save_state.is_deleting == before.save_state.is_deleting
        &&& if save_files.len() > 10 {
            &&& after.save_state.message@ == "You can only save 20 games!"@
            &&& after.state == before.state
            &&& after.save_state.save_files == before.save_state.save_files
        } else if name.len() == 0 {
            &&& after.save_state.message@ == "Please enter a name!"@
            &&& after.state == before.state
            &&& after.save_state.save_files == before.save_state.save_files
        } else if has_file(save_files, save_file_of(name)) {
            &&& after.save_state.message@ == "File with that name already exists!"@
            &&& after.state == before.state
            &&& after.save_state.save_files == before.save_state.save_files
        } else {
            &&& after.save_state.message@ == "Successfully saved!"@
            &&& after.state == PauseMenuState::Saved
            &&& after.save_state.save_files@ == save_files
        }
    }

    /// What Enter in delete mode makes of the menu, given the saves on disk, and the file
    /// that it hands back for removal: the save of the typed name, if there is one.
    pub open spec fn deleted(
        before: PauseMenu,
        after: PauseMenu,
        save_files: Seq<FileInfo>,
        doomed: Option<String>,
    ) -> bool {
        let name = before.save_state.save_file_name@;
        &&& only_save_dialog_differs(before, after)
        &&& after.state == before.state
        &&& after.save_state.save_file_name == before.save_state.save_file_name
        &&& after.save_state.is_deleting == before.save_state.is_deleting
        &&& after.save_state.save_files == before.save_state.save_files
        &&& if name.len() == 0 {
            &&& after.save_state.message@ == "Please enter a name!"@
            &&& doomed is None
        } else if has_file(save_files, save_file_of(name)) {
            &&& after.save_state.message@ == "DELETE MODE: Successfully deleted!"@
            &&& doomed matches Some(file)
            &&& file@ == save_file_of(name)
        } else {
            &&& after.save_state.message@ == "DELETE MODE: File with that name doesn't exist!"@
            &&& doomed is None
        }
    }

    /// What a key makes of the menu while the save dialog has the keys, given the saves
    /// on disk, and the file that it hands back for removal. A letter, a number or an
    /// underscore is added to the name; Backspace takes the last character away; plus and
    /// minus switch between saving and deleting and clear the name; Escape closes the
    /// dialog; Enter saves or deletes.
    pub open spec fn keyed(
        before: PauseMenu,
        after: PauseMenu,
        key_event: KeyInput,
        save_files: Seq<FileInfo>,
        doomed: Option<String>,
    ) -> bool {
        let typed = before.save_state.save_file_name@;
        let same_dialog_but_name = {
            &&& only_save_dialog_differs(before, after)
            &&& after.save_state.message == before.save_state.message
            &&& after.save_state.is_deleting == before.save_state.is_deleting
            &&& after.save_state.save_files == before.save_state.save_files
            &&& after.state == before.state
            &&& doomed is None
        };
        match key_event {
            KeyInput::Char(c) => if is_name_char(c) {
                same_dialog_but_name && after.save_state.save_file_name@ == typed.push(c)
            } else if c == '+' || c == '-' {
                &&& only_save_dialog_differs(before, after)
                &&& after.save_state.save_file_name@ == ""@
                &&& after.save_state.is_deleting == (c == '-')
                &&& after.save_state.message@ == (if c == '+' {
                    "ADD MODE: Enter the name for save file. Press - for delete mode."@
                } else {
                    "DELETE MODE: Enter the name of file you want to delete. Press + to go back."@
                })
                &&& after.save_state.save_files == before.save_state.save_files
                &&& after.state == before.state
                &&& doomed is None
            } else {
                after == before && doomed is None
            },
            KeyInput::Backspace => same_dialog_but_name && after.save_state.save_file_name@ == (
            if typed.len() > 0 {
                typed.drop_last()
            } else {
                typed
            }),
            KeyInput::Esc => {
                &&& only_save_dialog_differs(before, after)
                &&& after.save_state.is_opening(save_files)
                &&& after.state == PauseMenuState::Wait
                &&& doomed is None
            },
            KeyInput::Enter => if before.save_state.is_deleting {
                SaveHandler::deleted(before, after, save_files, doomed)
            } else {
                SaveHandler::saved(before, after, save_files) && doomed is None
            },
            _ => after == before && doomed is None,
        }
    }

    /// Enter in save mode, given the saves now on disk. A save is refused where more than
    /// ten are kept, where no name is typed, and where the name is taken; otherwise the
    /// menu goes to `Saved`, on which the match is written under the typed name.
    pub fn handle_save(pause_menu: &mut PauseMenu, save_files: &Vec<FileInfo>)
        ensures
            SaveHandler::saved(*old(pause_menu), *final(pause_menu), save_files@),
    {
        if save_files.len() > 10 {
            pause_menu.save_state.message = String::from_str("You can only save 20 games!");
            return ;
        }
        if pause_menu.save_state.save_file_name.as_str().is_empty() {
            pause_menu.save_state.message = String::from_str("Please enter a name!");
            return ;
        }
        let full_file_name: String = save_file_name(&pause_menu.save_state.save_file_name);

        if contains_file(save_files, &full_file_name) {
            pause_menu.save_state.message = String::from_str("File with that name already exists!");
        } else {
            pause_menu.save_state.message = String::from_str("Successfully saved!");
            pause_menu.save_state.save_files = copy_files(save_files);
            pause_menu.state = PauseMenuState::Saved
        }
    }

    /// Enter in delete mode, given the saves now on disk. Where a save of the typed name
    /// exists, its file name is handed back for the caller to remove, after which the
    /// caller reads the directory again and stores the listing in the dialog.
    pub fn handle_delete(pause_menu: &mut PauseMenu, save_files: &Vec<FileInfo>) -> (doomed: Option<
        String,
    >)
        ensures
            SaveHandler::deleted(*old(pause_menu), *final(pause_menu), save_files@, doomed),
    {
        if pause_menu.save_state.save_file_name.as_str().is_empty() {
            pause_menu.save_state.message = String::from_str("Please enter a name!");
            return None;
        }
        let full_file_name: String = save_file_name(&pause_menu.save_state.save_file_name);

        if contains_file(save_files, &full_file_name) {
            pause_menu.save_state.message = String::from_str("DELETE MODE: Successfully deleted!");
            Some(full_file_name)
        } else {
            pause_menu.save_state.message = String::from_str(
                "DELETE MODE: File with that name doesn't exist!",
            );
            None
        }
    }

    /// One key press in the save dialog, given the saves now on disk. Hands back the file
    /// to remove, if the key asks for that.
    pub fn handle_key_event(
        pause_menu: &mut PauseMenu,
        key_event: KeyInput,
        save_files: &Vec<FileInfo>,
    ) -> (doomed: Option<String>)
        ensures
            SaveHandler::keyed(*old(pause_menu), *final(pause_menu), key_event, save_files@, doomed),
    {
        match key_event {
            KeyInput::Char(c) => {
                if char_is_alphanumeric(c) || c == '_' {
                    push_char(&mut pause_menu.save_state.save_file_name, c);
                } else if c == '+' {
                    pause_menu.save_state.message = String::from_str(
                        "ADD MODE: Enter the name for save file. Press - for delete mode.",
                    );
                    pause_menu.save_state.is_deleting = false;
                    pause_menu.save_state.save_file_name = String::from_str("");
                } else if c == '-' {
                    pause_menu.save_state.message = String::from_str(
                        "DELETE MODE: Enter the name of file you want to delete. Press + to go back.",
                    );
                    pause_menu.save_state.is_deleting = true;
                    pause_menu.save_state.save_file_name = String::from_str("");
                }
                None
            },
            KeyInput::Backspace => {
                pop_char(&mut pause_menu.save_state.save_file_name);
                None
            },
            KeyInput::Esc => {
                pause_menu.save_state = SaveState::new(copy_files(save_files));
                pause_menu.state = PauseMenuState::Wait;
                None
            },
            KeyInput::Enter => {
                if pause_menu.save_state.is_deleting {
                    Self::handle_delete(pause_menu, save_files)
                } else {
                    Self::handle_save(pause_menu, save_files);
                    None
                }
            },
            _ => None,
        }
    }
}

} // verus!
