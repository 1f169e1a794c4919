//! The life cycle of the application: the outer state and, while a game is
//! on, the state of play.

use vstd::prelude::*;

verus! {

/// The outer state of the application.
#[derive(Debug, Clone, Copy, PartialEq, Eq, Hash, Structural)]
pub enum AppState {
    MainMenu,
    InGame,
    GameOver,
}

/// The state of play. Outside a game it is `GameQuited`.
#[derive(Debug, Clone, Copy, PartialEq, Eq, Hash, Structural)]
pub enum GameState {
    GamePlaying,
    GamePaused,
    GameRestarted,
    GameQuited,
}

impl Default for AppState {
    fn default() -> (state: AppState)
        ensures
            state == AppState::MainMenu,
    {
        AppState::MainMenu
    }
}

impl Default for GameState {
    fn default() -> (state: GameState)
        ensures
            state == GameState::GameQuited,
    {
        GameState::GameQuited
    }
}

/// The two states agree: play has a state of its own exactly while a game
/// is on.
pub open spec fn valid_states(app_state: AppState, game_state: GameState) -> bool {
    (app_state == AppState::InGame) == (game_state != GameState::GameQuited)
}

/// The game is on and neither paused nor just restarted: the one state in
/// which the board changes.
pub open spec fn is_playing(app_state: AppState, game_state: GameState) -> bool {
    app_state == AppState::InGame && game_state == GameState::GamePlaying
}

} // verus!
