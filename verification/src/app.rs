use vstd::prelude::*;

verus! {

/// Which top-level screen is shown.
#[derive(Default, PartialEq, Eq, Debug, Clone, Copy, Structural)]
pub enum CurrentScreen {
    #[default]
    MainMenu,
    GameScene,
    EndScreen,
}

/// Process-wide state: whether to leave, and the screen on display.
#[derive(Debug, Default)]
pub struct App {
    pub should_quit: bool,
    pub current_screen: CurrentScreen,
}

impl App {
    pub fn new() -> (app: App)
        ensures
            !app.should_quit,
            app.current_screen == CurrentScreen::MainMenu,
    {
        App { should_quit: false, current_screen: CurrentScreen::MainMenu }
    }

    /// Called on every idle tick; the state does not depend on time.
    pub fn tick(&self) {
    }

    /// Asks the main loop to end.
    pub fn quit(&mut self)
        ensures
            final(self).should_quit,
            final(self).current_screen == old(self).current_screen,
    {
        self.should_quit = true;
    }
}

} // verus!
