//! The commands that move the application between menu, play, pause and
//! game over.

use vstd::prelude::*;
use crate::common::{AppState, GameState};

verus! {

/// What a menu button asks for.
#[derive(Debug, Clone, Copy, PartialEq, Eq, Structural)]
pub enum MenuButtonAction {
    StartGame,
    RestartGame,
    BackToMainMenu,
    ResumeGame,
    Quit,
}

/// The commands that the input layer sends.
#[derive(Debug, Clone, Copy, PartialEq, Eq, Structural)]
pub enum Command {
    MoveLeft,
    MoveRight,
    SoftDrop,
    Rotate,
    ConfirmDrop,
    Pause,
    Resume,
    Start,
    Restart,
    ReturnToMenu,
    Quit,
}

/// What pressing a button led to.
#[derive(Debug, Clone, Copy, PartialEq, Eq, Structural)]
pub struct ButtonOutcome {
    /// The states changed.
    pub changed: bool,
    /// Board, counters, queue, falling piece and timers are to be reset.
    pub reset: bool,
    /// The application is to end.
    pub exit: bool,
}

/// The states that a button leads to. A button that has no meaning in the
/// present states leads nowhere.
///
/// - Start leads from the main menu into play.
/// - Restart leads from game over into a restarted game.
/// - Back to the main menu leads there from play, from pause and from game
///   over.
/// - Resume leads from pause back into play.
/// - Quit changes no state.
pub open spec fn button_target(
    app_state: AppState,
    game_state: GameState,
    action: MenuButtonAction,
) -> (AppState, GameState) {
    match action {
        MenuButtonAction::StartGame => if app_state == AppState::MainMenu {
            (AppState::InGame, GameState::GamePlaying)
        } else {
            (app_state, game_state)
        },
        MenuButtonAction::RestartGame => if app_state == AppState::GameOver {
            (AppState::InGame, GameState::GameRestarted)
        } else {
            (app_state, game_state)
        },
        MenuButtonAction::BackToMainMenu => if app_state == AppState::GameOver || (app_state
            == AppState::InGame && (game_state == GameState::GamePlaying || game_state
            == GameState::GamePaused)) {
            (AppState::MainMenu, GameState::GameQuited)
        } else {
            (app_state, game_state)
        },
        MenuButtonAction::ResumeGame => if app_state == AppState::InGame && game_state
            == GameState::GamePaused {
            (AppState::InGame, GameState::GamePlaying)
        } else {
            (app_state, game_state)
        },
        MenuButtonAction::Quit => (app_state, game_state),
    }
}

/// Whether the button resets the game: starting, restarting and going back
/// to the main menu do, where they lead anywhere.
pub open spec fn button_resets(
    app_state: AppState,
    game_state: GameState,
    action: MenuButtonAction,
) -> bool {
    &&& action == MenuButtonAction::StartGame || action == MenuButtonAction::RestartGame || action
        == MenuButtonAction::BackToMainMenu
    &&& button_target(app_state, game_state, action) != (app_state, game_state)
}

/// Carries out the press of a menu button on the two states.
pub fn click_button(
    app_state: &mut AppState,
    game_state: &mut GameState,
    action: MenuButtonAction,
) -> (outcome: ButtonOutcome)
    ensures
        (*final(app_state), *final(game_state)) == button_target(
            *old(app_state),
            *old(game_state),
            action,
        ),
        outcome.changed == ((*final(app_state), *final(game_state)) != (
            *old(app_state),
            *old(game_state),
        )),
        outcome.reset == button_resets(*old(app_state), *old(game_state), action),
        outcome.exit == (action == MenuButtonAction::Quit),
{
    let mut outcome = ButtonOutcome { changed: false, reset: false, exit: false };
    match action {
        MenuButtonAction::StartGame => {
            if *app_state == AppState::MainMenu {
                *app_state = AppState::InGame;
                *game_state = GameState::GamePlaying;
                outcome.changed = true;
                outcome.reset = true;
            }
        },
        MenuButtonAction::RestartGame => {
            if *app_state == AppState::GameOver {
                *app_state = AppState::InGame;
                *game_state = GameState::GameRestarted;
                outcome.changed = true;
                outcome.reset = true;
            }
        },
        MenuButtonAction::BackToMainMenu => {
            if *app_state == AppState::GameOver || (*app_state == AppState::InGame && (*game_state
                == GameState::GamePlaying || *game_state == GameState::GamePaused)) {
                *app_state = AppState::MainMenu;
                *game_state = GameState::GameQuited;
                outcome.changed = true;
                outcome.reset = true;
            }
        },
        MenuButtonAction::ResumeGame => {
            if *app_state == AppState::InGame && *game_state == GameState::GamePaused {
                *game_state = GameState::GamePlaying;
                outcome.changed = true;
            }
        },
        MenuButtonAction::Quit => {
            outcome.exit = true;
        },
    }
    outcome
}

/// The state of play after the pause key: play pauses, and a paused game
/// plays on; any other state stays.
pub open spec fn pause_toggled(game_state: GameState) -> GameState {
    match game_state {
        GameState::GamePlaying => GameState::GamePaused,
        GameState::GamePaused => GameState::GamePlaying,
        _ => game_state,
    }
}

/// Carries out the pause key. Returns whether the state changed.
pub fn pause_game(game_state: &mut GameState) -> (changed: bool)
    ensures
        *final(game_state) == pause_toggled(*old(game_state)),
        changed == (*final(game_state) != *old(game_state)),
{
    match *game_state {
        GameState::GamePlaying => {
            *game_state = GameState::GamePaused;
            true
        },
        GameState::GamePaused => {
            *game_state = GameState::GamePlaying;
            true
        },
        _ => false,
    }
}

/// The state of play once a restarted game has been set up: it plays.
pub open spec fn play_started(game_state: GameState) -> GameState {
    if game_state == GameState::GameRestarted {
        GameState::GamePlaying
    } else {
        game_state
    }
}

/// Lets a restarted game play. Returns whether the state changed.
pub fn play_game(game_state: &mut GameState) -> (changed: bool)
    ensures
        *final(game_state) == play_started(*old(game_state)),
        changed == (*old(game_state) == GameState::GameRestarted),
{
    if *game_state == GameState::GameRestarted {
        *game_state = GameState::GamePlaying;
        true
    } else {
        false
    }
}

} // verus!
