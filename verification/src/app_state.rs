//! The stages of the game.
use vstd::prelude::*;

verus! {

/// Where the game is: in its main menu, being played, or shutting down.
#[derive(Clone, Copy, PartialEq, Eq, Structural, Debug, Hash)]
pub enum AppState {
    MainMenu,
    InGame,
    Quit,
}

impl Default for AppState {
    /// The game opens on its main menu.
    fn default() -> (s: Self)
        ensures
            s == AppState::MainMenu,
    {
        AppState::MainMenu
    }
}

} // verus!
