//! Core application state and screen management.

use vstd::prelude::*;

use crate::fs::FileSystem;
use crate::states::start::spec_get_recent_paths;
use crate::states::{MapState, SettingsState, StartState};

verus! {

/// Application screens. Each variant holds its own state to avoid
/// coupling between screens and enable independent development.
#[derive(PartialEq, Debug)]
pub enum Screen {
    Start(StartState),
    MapView(MapState),
    Settings(SettingsState),
}

pub struct App {
    /// Set to `false` to exit the main loop.
    pub running: bool,
    pub screen: Screen,
}

impl App {
    /// A running application on the start screen, with the recent paths loaded from `fs`.
    pub fn new_with_fs<F: FileSystem>(fs: &F) -> (r: App)
        ensures
            r.running,
            r.screen matches Screen::Start(s) && s.recent_paths == spec_get_recent_paths(*fs),
    {
        App { running: true, screen: Screen::Start(StartState::new_with_fs(fs)) }
    }

    pub fn quit(&mut self)
        ensures
            !final(self).running,
            final(self).screen == old(self).screen,
    {
        self.running = false;
    }
}

} // verus!
