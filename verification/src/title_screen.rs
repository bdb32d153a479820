//! The title screen: it starts a fresh session and offers to play or quit.

use vstd::prelude::*;
use crate::game_state::GameState;

verus! {

/// The scene that a new game opens.
pub const GAME_SCENE: &'static str = "res://GameScene.tscn";

/// The exit code of quitting from the title screen.
pub const QUIT_EXIT_CODE: i64 = -1;

/// The buttons of the title screen.
pub enum MenuButton {
    NewGame,
    QuitGame,
}

/// What pressing a button asks of the engine.
#[derive(PartialEq, Eq, Structural)]
pub enum MenuAction {
    /// Open the game scene.
    StartGame,
    /// Quit with this exit code.
    Quit(i64),
}

pub struct TitleScreen;

impl TitleScreen {
    pub fn new() -> TitleScreen {
        TitleScreen
    }

    /// The title screen is shown: the session starts afresh.
    pub fn ready(&self, state: &mut GameState)
        ensures
            *final(state) == GameState::initial(),
    {
        state.reset();
    }

    /// What a button does: a new game opens the game scene, quitting ends
    /// the program with the quit exit code.
    pub fn pressed(&self, button: MenuButton) -> (action: MenuAction)
        ensures
            action == match button {
                MenuButton::NewGame => MenuAction::StartGame,
                MenuButton::QuitGame => MenuAction::Quit(QUIT_EXIT_CODE),
            },
    {
        match button {
            MenuButton::NewGame => MenuAction::StartGame,
            MenuButton::QuitGame => MenuAction::Quit(QUIT_EXIT_CODE),
        }
    }
}

} // verus!
