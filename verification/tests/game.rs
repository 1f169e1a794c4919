use tetris::board::{Block, Board};
use tetris::common::{AppState, GameState};
use tetris::game::Game;
use tetris::menu::{ButtonOutcome, Command, MenuButtonAction};
use tetris::model::Events;
use tetris::motion::Input;
use tetris::piece::{Movable, Orientation, PieceConfig, PieceType};
use tetris::randomizer::cycle_from_draws;
use tetris::timer::{Timer, TimerMode};

const QUIET: Events = Events {
    piece_moved: false,
    piece_locked: false,
    lines_cleared: 0,
    game_over_triggered: false,
    state_changed: false,
};

const TENTH: u64 = 100_000;
const SECOND: u64 = 1_000_000;

fn in_order() -> Vec<PieceConfig> {
    cycle_from_draws(&vec![0, 0, 0, 0, 0, 0])
}

fn reversed() -> Vec<PieceConfig> {
    cycle_from_draws(&vec![6, 5, 4, 3, 2, 1])
}

fn started() -> Game {
    let mut game = Game::new_with(&in_order());
    game.command_with(Command::Start, &in_order());
    game
}

fn with(command: Command) -> Input {
    let mut input = Input::none();
    input.press(command);
    input
}

fn cells(cells: [(i32, i32); 4]) -> [Block; 4] {
    [
        Block { x: cells[0].0, y: cells[0].1 },
        Block { x: cells[1].0, y: cells[1].1 },
        Block { x: cells[2].0, y: cells[2].1 },
        Block { x: cells[3].0, y: cells[3].1 },
    ]
}

fn settle_one(board: &mut Board, x: i32, y: i32) {
    let b = Block { x, y };
    board.settle(&[b, b, b, b], PieceType::O);
}

fn positions(board: &Board) -> Vec<(i32, i32)> {
    board.cells().iter().map(|(b, _)| (b.x, b.y)).collect()
}

fn queue_types(game: &Game) -> Vec<PieceType> {
    game.queue.0.iter().map(|c| c.piece_type).collect()
}

fn piece_is_safe(game: &Game) -> bool {
    match game.piece {
        None => true,
        Some(p) => p
            .blocks
            .iter()
            .all(|b| 0 <= b.x && b.x <= 9 && b.y >= 0 && !game.board.occupied(b.x, b.y)),
    }
}

#[test]
fn a_new_session_waits_at_the_main_menu() {
    let game = Game::new_with(&in_order());
    assert_eq!(game.app_state, AppState::MainMenu);
    assert_eq!(game.game_state, GameState::GameQuited);
    assert!(game.board.cells().is_empty());
    assert_eq!(game.piece, None);
    assert_eq!(game.score.0, 0);
    assert_eq!(game.lines.0, 0);
    assert_eq!(game.queue.len(), 7);
    assert_eq!(game.next_piece(), PieceConfig::spawn(PieceType::I));
    assert_eq!(game.auto_move_timer.0, Timer::from_millis(1000, TimerMode::Repeating));
    assert_eq!(game.manually_move_timer.0, Timer::from_millis(100, TimerMode::Once));
    assert_eq!(game.lock_timer.0, Timer::from_millis(300, TimerMode::Once));
    assert!(game.has_room());
    let random = Game::new();
    assert_eq!(random.app_state, AppState::MainMenu);
    assert_eq!(random.queue.len(), 7);
}

#[test]
fn ticks_outside_play_change_nothing() {
    let mut game = Game::new_with(&in_order());
    let events = game.tick_with(SECOND, &with(Command::MoveLeft), &reversed());
    assert_eq!(events, QUIET);
    assert_eq!(game.piece, None);
    assert_eq!(game.queue.len(), 7);
    assert_eq!(game.auto_move_timer.0.elapsed, 0);
    assert_eq!(game.app_state, AppState::MainMenu);
}

#[test]
fn first_tick_lets_the_first_piece_enter_play() {
    let mut game = started();
    assert_eq!((game.app_state, game.game_state), (AppState::InGame, GameState::GamePlaying));
    assert_eq!(game.piece, None);
    let events = game.tick_with(0, &Input::none(), &reversed());
    assert_eq!(events, QUIET);
    let p = game.piece.unwrap();
    assert_eq!(p.piece_type, PieceType::I);
    assert_eq!(p.orientation, Orientation::Deg0);
    assert_eq!(p.blocks, cells([(3, 20), (4, 20), (5, 20), (6, 20)]));
    assert_eq!(p.movable, Movable { can_down: true, can_left: true, can_right: true });
    // the six that are left of the first cycle, and a whole new cycle
    assert_eq!(
        queue_types(&game),
        vec![
            PieceType::J,
            PieceType::L,
            PieceType::O,
            PieceType::S,
            PieceType::T,
            PieceType::Z,
            PieceType::Z,
            PieceType::T,
            PieceType::S,
            PieceType::O,
            PieceType::L,
            PieceType::J,
            PieceType::I
        ]
    );
    assert_eq!(game.next_piece().piece_type, PieceType::J);
}

#[test]
fn a_locked_piece_settles_and_the_next_enters_play() {
    let mut game = started();
    game.tick_with(0, &Input::none(), &reversed());
    // the I falls to the floor in twenty seconds and locks on landing
    for k in 1..=19 {
        let events = game.tick_with(SECOND, &Input::none(), &reversed());
        assert!(events.piece_moved && !events.piece_locked);
        assert_eq!(game.piece.unwrap().blocks[0].y, 20 - k);
    }
    let events = game.tick_with(SECOND, &Input::none(), &reversed());
    assert_eq!(
        events,
        Events {
            piece_moved: true,
            piece_locked: true,
            lines_cleared: 0,
            game_over_triggered: false,
            state_changed: false
        }
    );
    assert_eq!(positions(&game.board), vec![(3, 0), (4, 0), (5, 0), (6, 0)]);
    assert_eq!(game.board.get(3, 0), Some(PieceType::I));
    assert_eq!(game.piece.unwrap().piece_type, PieceType::J);
    assert_eq!(game.piece.unwrap().blocks, PieceConfig::spawn(PieceType::J).blocks);
    assert_eq!(
        queue_types(&game),
        vec![
            PieceType::L,
            PieceType::O,
            PieceType::S,
            PieceType::T,
            PieceType::Z,
            PieceType::Z,
            PieceType::T,
            PieceType::S,
            PieceType::O,
            PieceType::L,
            PieceType::J,
            PieceType::I
        ]
    );
    assert_eq!(game.score.0, 0);
    assert_eq!(game.lines.0, 0);
}

#[test]
fn rotate_command_turns_the_falling_piece() {
    let mut game = started();
    game.tick_with(0, &Input::none(), &in_order());
    let events = game.tick_with(TENTH, &with(Command::Rotate), &in_order());
    assert!(events.piece_moved);
    let p = game.piece.unwrap();
    assert_eq!(p.orientation, Orientation::Deg90);
    assert_eq!(p.blocks, cells([(4, 21), (4, 20), (4, 19), (4, 18)]));
    let events = game.tick_with(TENTH, &Input::none(), &in_order());
    assert!(!events.piece_moved);
    assert_eq!(game.piece.unwrap().blocks, p.blocks);
}

#[test]
fn lock_delay_gives_a_grace_period() {
    let mut game = started();
    game.tick_with(0, &Input::none(), &in_order());
    let drop = with(Command::SoftDrop);
    // soft drop and gravity take the I to the floor in twenty tenths
    for _ in 0..20 {
        let events = game.tick_with(TENTH, &drop, &in_order());
        assert!(events.piece_moved && !events.piece_locked);
    }
    let landed = game.piece.unwrap();
    assert_eq!(landed.blocks, cells([(3, 0), (4, 0), (5, 0), (6, 0)]));
    assert!(!landed.movable.can_down);
    assert_eq!(game.lock_timer.0.elapsed, TENTH);
    // a step to the side starts the delay over
    let events = game.tick_with(TENTH, &with(Command::MoveLeft), &in_order());
    assert!(events.piece_moved && !events.piece_locked);
    assert_eq!(game.piece.unwrap().blocks, cells([(2, 0), (3, 0), (4, 0), (5, 0)]));
    assert_eq!(game.lock_timer.0.elapsed, TENTH);
    let events = game.tick_with(TENTH, &Input::none(), &in_order());
    assert_eq!(events, QUIET);
    assert!(game.piece.is_some());
    assert!(game.board.cells().is_empty());
    // three tenths after the step the piece locks where it rests
    let events = game.tick_with(TENTH, &Input::none(), &in_order());
    assert!(events.piece_locked && !events.piece_moved);
    assert_eq!(positions(&game.board), vec![(2, 0), (3, 0), (4, 0), (5, 0)]);
    assert_eq!(game.piece.unwrap().piece_type, PieceType::J);
    assert_eq!(game.lock_timer.0.elapsed, 0);
}

#[test]
fn confirm_drop_locks_only_a_resting_piece() {
    let mut game = started();
    game.tick_with(0, &Input::none(), &in_order());
    let events = game.tick_with(TENTH, &with(Command::ConfirmDrop), &in_order());
    assert_eq!(events, QUIET);
    assert_eq!(game.piece.unwrap().piece_type, PieceType::I);
    for _ in 0..20 {
        game.tick_with(TENTH, &with(Command::SoftDrop), &in_order());
    }
    assert!(game.board.cells().is_empty());
    let events = game.tick_with(1, &with(Command::ConfirmDrop), &in_order());
    assert!(events.piece_locked);
    assert_eq!(positions(&game.board), vec![(3, 0), (4, 0), (5, 0), (6, 0)]);
}

#[test]
fn a_piece_that_slides_off_a_ledge_falls_on() {
    let mut game = started();
    // a ledge under the right end of the I
    settle_one(&mut game.board, 6, 10);
    game.tick_with(0, &Input::none(), &in_order());
    for _ in 0..8 {
        game.tick_with(SECOND, &Input::none(), &in_order());
    }
    for _ in 0..10 {
        game.tick_with(TENTH, &Input::none(), &in_order());
    }
    let resting = game.piece.unwrap();
    assert_eq!(resting.blocks, cells([(3, 11), (4, 11), (5, 11), (6, 11)]));
    assert!(!resting.movable.can_down);
    assert_eq!(game.lock_timer.0.elapsed, TENTH);
    game.tick_with(TENTH, &Input::none(), &in_order());
    assert_eq!(game.lock_timer.0.elapsed, 2 * TENTH);
    let events = game.tick_with(TENTH / 2, &with(Command::MoveLeft), &in_order());
    assert!(events.piece_moved && !events.piece_locked);
    let free = game.piece.unwrap();
    assert_eq!(free.blocks, cells([(2, 11), (3, 11), (4, 11), (5, 11)]));
    assert!(free.movable.can_down);
    assert_eq!(game.lock_timer.0.elapsed, 0);
    let events = game.tick_with(SECOND, &Input::none(), &in_order());
    assert!(!events.piece_locked);
    assert_eq!(game.piece.unwrap().blocks, cells([(2, 10), (3, 10), (4, 10), (5, 10)]));
}

#[test]
fn a_completed_line_is_cleared_and_scored() {
    let mut game = started();
    for x in [0, 1, 2, 7, 8, 9] {
        settle_one(&mut game.board, x, 0);
    }
    settle_one(&mut game.board, 0, 1);
    game.tick_with(0, &Input::none(), &in_order());
    for _ in 0..19 {
        game.tick_with(SECOND, &Input::none(), &in_order());
    }
    let events = game.tick_with(SECOND, &Input::none(), &in_order());
    assert_eq!(
        events,
        Events {
            piece_moved: true,
            piece_locked: true,
            lines_cleared: 1,
            game_over_triggered: false,
            state_changed: false
        }
    );
    assert_eq!(game.score.0, 100);
    assert_eq!(game.lines.0, 1);
    assert_eq!(positions(&game.board), vec![(0, 0)]);
}

#[test]
fn four_lines_at_once_score_eight_hundred() {
    let mut game = started();
    for y in 0..4 {
        for x in 0..10 {
            if x != 4 {
                settle_one(&mut game.board, x, y);
            }
        }
    }
    settle_one(&mut game.board, 9, 4);
    game.tick_with(0, &Input::none(), &in_order());
    game.tick_with(TENTH, &with(Command::Rotate), &in_order());
    assert_eq!(game.piece.unwrap().blocks, cells([(4, 21), (4, 20), (4, 19), (4, 18)]));
    let mut locked = false;
    for _ in 0..40 {
        let events = game.tick_with(SECOND, &Input::none(), &in_order());
        assert!(piece_is_safe(&game));
        if events.piece_locked {
            assert_eq!(events.lines_cleared, 4);
            locked = true;
            break;
        }
    }
    assert!(locked);
    assert_eq!(game.score.0, 800);
    assert_eq!(game.lines.0, 4);
    assert_eq!(positions(&game.board), vec![(9, 0)]);
}

#[test]
fn stacking_to_the_top_ends_the_game() {
    let mut game = started();
    let mut over = false;
    let mut locks = 0;
    for _ in 0..2000 {
        let events = game.tick_with(SECOND, &Input::none(), &in_order());
        assert!(piece_is_safe(&game));
        if events.piece_locked {
            locks += 1;
        }
        if events.game_over_triggered {
            assert!(events.piece_locked && events.state_changed);
            over = true;
            break;
        }
        assert!(!game.board.is_overflowing());
        assert_eq!(game.app_state, AppState::InGame);
    }
    assert!(over);
    assert!(locks >= 10);
    assert!(game.board.is_overflowing());
    assert_eq!((game.app_state, game.game_state), (AppState::GameOver, GameState::GameQuited));
    assert_eq!(game.piece, None);
    assert_eq!(game.lock_timer.0.elapsed, 0);
    assert_eq!(game.auto_move_timer.0.elapsed, 0);
    // once the game is over, ticks leave the board alone
    let board = game.board.cells();
    let queue = queue_types(&game);
    for _ in 0..5 {
        let events = game.tick_with(SECOND, &with(Command::MoveLeft), &reversed());
        assert_eq!(events, QUIET);
    }
    assert_eq!(game.board.cells(), board);
    assert_eq!(queue_types(&game), queue);
    assert_eq!(game.piece, None);
    assert_eq!(game.app_state, AppState::GameOver);
}

#[test]
fn restart_resets_and_plays_on() {
    let mut game = started();
    for _ in 0..2000 {
        if game.tick_with(SECOND, &Input::none(), &in_order()).game_over_triggered {
            break;
        }
    }
    assert_eq!(game.app_state, AppState::GameOver);
    game.score.0 = 1234;
    game.lines.0 = 56;
    let outcome = game.command_with(Command::Restart, &reversed());
    assert_eq!(outcome, ButtonOutcome { changed: true, reset: true, exit: false });
    assert_eq!((game.app_state, game.game_state), (AppState::InGame, GameState::GameRestarted));
    assert!(game.board.cells().is_empty());
    assert_eq!(game.score.0, 0);
    assert_eq!(game.lines.0, 0);
    assert_eq!(game.piece, None);
    assert_eq!(queue_types(&game)[0], PieceType::Z);
    assert_eq!(game.queue.len(), 7);
    // the next tick plays
    let events = game.tick_with(SECOND, &Input::none(), &in_order());
    assert!(events.state_changed && events.piece_moved);
    assert_eq!(game.game_state, GameState::GamePlaying);
    assert_eq!(game.piece.unwrap().piece_type, PieceType::Z);
    assert_eq!(game.piece.unwrap().blocks, cells([(3, 20), (4, 20), (4, 19), (5, 19)]));
}

#[test]
fn return_to_menu_resets_the_session() {
    let mut game = started();
    settle_one(&mut game.board, 0, 0);
    game.tick_with(SECOND, &Input::none(), &in_order());
    game.score.0 = 700;
    game.lines.0 = 9;
    game.lock_timer.0.tick(TENTH);
    assert!(game.piece.is_some());
    let outcome = game.click_with(MenuButtonAction::BackToMainMenu, &reversed());
    assert_eq!(outcome, ButtonOutcome { changed: true, reset: true, exit: false });
    assert_eq!((game.app_state, game.game_state), (AppState::MainMenu, GameState::GameQuited));
    assert!(game.board.cells().is_empty());
    assert_eq!(game.score.0, 0);
    assert_eq!(game.lines.0, 0);
    assert_eq!(game.piece, None);
    let queue: Vec<PieceConfig> = game.queue.0.iter().copied().collect();
    assert_eq!(queue, reversed());
    assert_eq!(game.auto_move_timer.0, Timer::from_millis(1000, TimerMode::Repeating));
    assert_eq!(game.manually_move_timer.0, Timer::from_millis(100, TimerMode::Once));
    assert_eq!(game.lock_timer.0, Timer::from_millis(300, TimerMode::Once));
}

#[test]
fn reset_with_keeps_the_states() {
    let mut game = started();
    game.tick_with(SECOND, &Input::none(), &in_order());
    settle_one(&mut game.board, 5, 5);
    game.reset_with(&reversed());
    assert_eq!((game.app_state, game.game_state), (AppState::InGame, GameState::GamePlaying));
    assert!(game.board.cells().is_empty());
    assert_eq!(game.piece, None);
    assert_eq!(queue_types(&game)[6], PieceType::I);
}

#[test]
fn pause_stops_the_ticks_and_resume_lets_them_run() {
    let mut game = started();
    game.tick_with(SECOND, &Input::none(), &in_order());
    let falling = game.piece;
    assert!(game.pause());
    assert_eq!(game.game_state, GameState::GamePaused);
    for _ in 0..3 {
        assert_eq!(game.tick_with(SECOND, &with(Command::MoveLeft), &in_order()), QUIET);
    }
    assert_eq!(game.piece, falling);
    assert_eq!(game.auto_move_timer.0.elapsed, 0);
    // pause while paused changes nothing, resume plays
    let outcome = game.command_with(Command::Pause, &in_order());
    assert_eq!(outcome, ButtonOutcome { changed: false, reset: false, exit: false });
    let outcome = game.command_with(Command::Resume, &in_order());
    assert_eq!(outcome, ButtonOutcome { changed: true, reset: false, exit: false });
    assert_eq!(game.game_state, GameState::GamePlaying);
    assert_eq!(game.piece, falling);
    let events = game.tick_with(SECOND, &Input::none(), &in_order());
    assert!(events.piece_moved);
    let outcome = game.command_with(Command::Pause, &in_order());
    assert_eq!(outcome, ButtonOutcome { changed: true, reset: false, exit: false });
    assert!(game.pause());
    assert_eq!(game.game_state, GameState::GamePlaying);
}

#[test]
fn commands_without_meaning_are_absorbed() {
    let mut game = started();
    game.tick_with(SECOND, &Input::none(), &in_order());
    let falling = game.piece;
    let ignored = ButtonOutcome { changed: false, reset: false, exit: false };
    for command in [
        Command::Start,
        Command::Restart,
        Command::Resume,
        Command::MoveLeft,
        Command::MoveRight,
        Command::SoftDrop,
        Command::Rotate,
        Command::ConfirmDrop,
    ] {
        assert_eq!(game.command_with(command, &reversed()), ignored);
        assert_eq!((game.app_state, game.game_state), (AppState::InGame, GameState::GamePlaying));
        assert_eq!(game.piece, falling);
        assert_eq!(game.queue.len(), 13);
    }
    let quit = game.command_with(Command::Quit, &reversed());
    assert_eq!(quit, ButtonOutcome { changed: false, reset: false, exit: true });
    assert_eq!(game.piece, falling);
}

#[test]
fn random_session_plays_safely() {
    let mut game = Game::new();
    assert!(game.command(Command::Start).changed);
    let inputs = [
        Command::MoveLeft,
        Command::Rotate,
        Command::MoveRight,
        Command::SoftDrop,
        Command::Rotate,
        Command::MoveLeft,
        Command::ConfirmDrop,
    ];
    let mut locks = 0;
    for k in 0..5000usize {
        if !game.has_room() || game.app_state != AppState::InGame {
            break;
        }
        let mut input = with(inputs[k % 7]);
        if k % 3 == 0 {
            input.press(inputs[(k / 3) % 7]);
        }
        let events = game.tick(TENTH, &input);
        assert!(piece_is_safe(&game));
        assert!(game.queue.len() >= 7);
        assert!(game.board.full_rows().is_empty());
        if events.piece_locked {
            locks += 1;
        }
    }
    assert!(locks > 0);
    let outcome = game.click(MenuButtonAction::BackToMainMenu);
    assert!(outcome.reset);
    assert!(game.board.cells().is_empty());
    assert_eq!(game.queue.len(), 7);
}

#[test]
fn pieces_enter_play_cycle_by_cycle() {
    let mut game = started();
    let mut entered: Vec<PieceType> = Vec::new();
    let mut turn = 0;
    game.tick_with(0, &Input::none(), &reversed());
    entered.push(game.piece.unwrap().piece_type);
    while entered.len() < 35 {
        let cycle = if turn % 2 == 0 { in_order() } else { reversed() };
        let mut input = with(Command::SoftDrop);
        input.press(Command::ConfirmDrop);
        let events = game.tick_with(TENTH, &input, &cycle);
        if events.piece_locked {
            turn += 1;
            // make room, so that the game goes on
            game.board.clear();
            assert!(game.is_valid());
            entered.push(game.piece.unwrap().piece_type);
        }
    }
    for k in 0..5 {
        let mut cycle = entered[7 * k..7 * k + 7].to_vec();
        cycle.sort_by_key(|t| *t as u8);
        cycle.dedup();
        assert_eq!(cycle.len(), 7);
    }
    assert_eq!(
        entered[0..7],
        [
            PieceType::I,
            PieceType::J,
            PieceType::L,
            PieceType::O,
            PieceType::S,
            PieceType::T,
            PieceType::Z
        ]
    );
}

#[test]
fn sessions_that_the_library_made_are_valid() {
    let mut game = Game::new_with(&in_order());
    assert!(game.is_valid());
    game.command_with(Command::Start, &reversed());
    assert!(game.is_valid());
    for k in 0..300usize {
        let mut input = with(Command::Rotate);
        if k % 2 == 0 {
            input.press(Command::MoveRight);
        }
        game.tick_with(SECOND / 4, &input, &in_order());
        assert!(game.is_valid());
    }
    game.pause();
    assert!(game.is_valid());
}

#[test]
fn sessions_that_were_set_by_hand_are_checked() {
    let mut game = started();
    game.tick_with(0, &Input::none(), &in_order());
    assert!(game.is_valid());
    // a falling piece outside a game
    let mut menu = started();
    menu.tick_with(0, &Input::none(), &in_order());
    menu.app_state = AppState::MainMenu;
    menu.game_state = GameState::GameQuited;
    assert!(!menu.is_valid());
    // states that disagree
    let mut odd = started();
    odd.game_state = GameState::GameQuited;
    assert!(!odd.is_valid());
    // a full row that was not cleared
    let mut full = started();
    for x in 0..10 {
        settle_one(&mut full.board, x, 0);
    }
    assert!(!full.is_valid());
    // a settled cell in the overflow row while the game is on
    let mut high = started();
    settle_one(&mut high.board, 0, 19);
    assert!(!high.is_valid());
    high.app_state = AppState::GameOver;
    high.game_state = GameState::GameQuited;
    assert!(high.is_valid());
    // a falling piece on a settled cell
    let mut hit = started();
    hit.tick_with(0, &Input::none(), &in_order());
    settle_one(&mut hit.board, 4, 18);
    let mut low = hit.piece.unwrap();
    low.blocks = cells([(3, 18), (4, 18), (5, 18), (6, 18)]);
    hit.piece = Some(low);
    assert!(!hit.is_valid());
    // a falling piece that is bent out of shape
    let mut bent = started();
    bent.tick_with(0, &Input::none(), &in_order());
    let mut p = bent.piece.unwrap();
    p.blocks = cells([(3, 10), (4, 10), (5, 10), (6, 11)]);
    bent.piece = Some(p);
    assert!(!bent.is_valid());
    p.blocks = cells([(3, 10), (4, 10), (5, 10), (6, 10)]);
    bent.piece = Some(p);
    assert!(bent.is_valid());
    p.orientation = Orientation::Deg90;
    bent.piece = Some(p);
    assert!(!bent.is_valid());
    // an upcoming piece that does not stand at its spawn
    let mut moved = started();
    let mut cycle = in_order();
    cycle[2].blocks = cells([(0, 0), (1, 0), (2, 0), (2, 1)]);
    moved.queue.rebuild(&cycle);
    assert!(!moved.is_valid());
    // a queue that ran short
    let mut short = started();
    short.queue.rebuild(&vec![PieceConfig::spawn(PieceType::I)]);
    assert!(!short.is_valid());
}

#[test]
fn counters_near_their_limit_leave_no_room() {
    let mut game = started();
    game.score.0 = u32::MAX - 800;
    game.lines.0 = u32::MAX - 4;
    assert!(game.has_room());
    game.score.0 = u32::MAX - 799;
    assert!(!game.has_room());
    game.score.0 = 0;
    game.lines.0 = u32::MAX - 3;
    assert!(!game.has_room());
}
