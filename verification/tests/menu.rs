use tetris::common::{AppState, GameState};
use tetris::menu::{click_button, pause_game, play_game, ButtonOutcome, MenuButtonAction};

fn press(app: AppState, game: GameState, action: MenuButtonAction) -> (AppState, GameState, ButtonOutcome) {
    let mut a = app;
    let mut g = game;
    let outcome = click_button(&mut a, &mut g, action);
    (a, g, outcome)
}

const LED: ButtonOutcome = ButtonOutcome { changed: true, reset: false, exit: false };
const LED_AND_RESET: ButtonOutcome = ButtonOutcome { changed: true, reset: true, exit: false };
const IGNORED: ButtonOutcome = ButtonOutcome { changed: false, reset: false, exit: false };

#[test]
fn states_start_at_the_main_menu() {
    assert_eq!(AppState::default(), AppState::MainMenu);
    assert_eq!(GameState::default(), GameState::GameQuited);
}

#[test]
fn start_leads_from_the_menu_into_play() {
    assert_eq!(
        press(AppState::MainMenu, GameState::GameQuited, MenuButtonAction::StartGame),
        (AppState::InGame, GameState::GamePlaying, LED_AND_RESET)
    );
}

#[test]
fn restart_leads_from_game_over_into_a_restarted_game() {
    assert_eq!(
        press(AppState::GameOver, GameState::GameQuited, MenuButtonAction::RestartGame),
        (AppState::InGame, GameState::GameRestarted, LED_AND_RESET)
    );
}

#[test]
fn back_to_menu_leads_there_from_play_pause_and_game_over() {
    for (app, game) in [
        (AppState::InGame, GameState::GamePlaying),
        (AppState::InGame, GameState::GamePaused),
        (AppState::GameOver, GameState::GameQuited),
    ] {
        assert_eq!(
            press(app, game, MenuButtonAction::BackToMainMenu),
            (AppState::MainMenu, GameState::GameQuited, LED_AND_RESET)
        );
    }
}

#[test]
fn resume_leads_from_pause_into_play() {
    assert_eq!(
        press(AppState::InGame, GameState::GamePaused, MenuButtonAction::ResumeGame),
        (AppState::InGame, GameState::GamePlaying, LED)
    );
}

#[test]
fn quit_changes_no_state() {
    for (app, game) in [
        (AppState::MainMenu, GameState::GameQuited),
        (AppState::InGame, GameState::GamePlaying),
        (AppState::GameOver, GameState::GameQuited),
    ] {
        assert_eq!(
            press(app, game, MenuButtonAction::Quit),
            (app, game, ButtonOutcome { changed: false, reset: false, exit: true })
        );
    }
}

#[test]
fn buttons_without_meaning_are_ignored() {
    let cases = [
        (AppState::InGame, GameState::GamePlaying, MenuButtonAction::StartGame),
        (AppState::GameOver, GameState::GameQuited, MenuButtonAction::StartGame),
        (AppState::MainMenu, GameState::GameQuited, MenuButtonAction::RestartGame),
        (AppState::InGame, GameState::GamePlaying, MenuButtonAction::RestartGame),
        (AppState::InGame, GameState::GamePaused, MenuButtonAction::RestartGame),
        (AppState::MainMenu, GameState::GameQuited, MenuButtonAction::BackToMainMenu),
        (AppState::InGame, GameState::GameRestarted, MenuButtonAction::BackToMainMenu),
        (AppState::MainMenu, GameState::GameQuited, MenuButtonAction::ResumeGame),
        (AppState::InGame, GameState::GamePlaying, MenuButtonAction::ResumeGame),
        (AppState::GameOver, GameState::GameQuited, MenuButtonAction::ResumeGame),
    ];
    for (app, game, action) in cases {
        assert_eq!(press(app, game, action), (app, game, IGNORED));
    }
}

#[test]
fn pause_key_toggles_between_play_and_pause() {
    let mut game = GameState::GamePlaying;
    assert!(pause_game(&mut game));
    assert_eq!(game, GameState::GamePaused);
    assert!(pause_game(&mut game));
    assert_eq!(game, GameState::GamePlaying);
    let mut out = GameState::GameQuited;
    assert!(!pause_game(&mut out));
    assert_eq!(out, GameState::GameQuited);
    let mut restarted = GameState::GameRestarted;
    assert!(!pause_game(&mut restarted));
    assert_eq!(restarted, GameState::GameRestarted);
}

#[test]
fn a_restarted_game_begins_to_play() {
    let mut game = GameState::GameRestarted;
    assert!(play_game(&mut game));
    assert_eq!(game, GameState::GamePlaying);
    for state in [GameState::GamePlaying, GameState::GamePaused, GameState::GameQuited] {
        let mut game = state;
        assert!(!play_game(&mut game));
        assert_eq!(game, state);
    }
}
