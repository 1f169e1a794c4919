//! A game session as contracts see it, and what one tick makes of it.

use vstd::prelude::*;
use crate::board::{
    Grid, fits, full_row_count, full_row_set, grid_wf, overflowing, remaining_rows, settled,
};
use crate::common::{AppState, GameState, is_playing, valid_states};
use crate::menu::{Command, MenuButtonAction, button_resets, button_target, play_started};
use crate::motion::{Input, after_motion, descends, locks, movable_of, step_taken};
use crate::piece::{ActivePiece, PieceConfig, PieceModel};
use crate::queue::{all_spawn, piece_generated, queue_generated};
use crate::rotation::{after_rotation, has_shape, rotation_of};
use crate::stats::{Lines, Score, line_score};
use crate::timer::Timer;

verus! {

/// What happened during one tick.
#[derive(Debug, Clone, Copy, PartialEq, Eq, Structural)]
pub struct Events {
    /// The falling piece turned or moved.
    pub piece_moved: bool,
    /// The falling piece locked and settled on the board.
    pub piece_locked: bool,
    /// The number of lines that the locked piece completed.
    pub lines_cleared: u32,
    /// The settled cells reached the overflow row.
    pub game_over_triggered: bool,
    /// The state of the application changed.
    pub state_changed: bool,
}

/// A game session as contracts see it.
pub struct GameModel {
    pub app_state: AppState,
    pub game_state: GameState,
    pub grid: Grid,
    pub piece: Option<PieceModel>,
    pub queue: Seq<PieceConfig>,
    pub score: Score,
    pub lines: Lines,
    pub auto_move_timer: Timer,
    pub manually_move_timer: Timer,
    pub lock_timer: Timer,
}

/// The falling piece as contracts see it, if there is one.
pub open spec fn piece_model(piece: Option<ActivePiece>) -> Option<PieceModel> {
    match piece {
        Some(p) => Some(p@),
        None => None,
    }
}

/// The piece has four cells, each inside the walls, above the floor and
/// clear of the settled cells, and they are the cells of its shape in its
/// rotation state.
pub open spec fn piece_ok(p: PieceModel, grid: Grid) -> bool {
    &&& p.cells.len() == 4
    &&& fits(grid, p.cells)
    &&& has_shape(p.piece_type, p.orientation, p.cells)
}

/// What holds of a game session between any two calls.
///
/// The grid is well formed and holds no full row. The two states agree.
/// At least seven pieces are upcoming, each as it enters play. Unless the
/// game is over, no settled cell has reached the overflow row. A falling
/// piece exists only while a game is on; it has the four cells of its shape
/// in its rotation state, each of them inside the walls, above the floor
/// and clear of the settled cells.
pub open spec fn model_inv(m: GameModel) -> bool {
    &&& grid_wf(m.grid)
    &&& full_row_count(m.grid) == 0
    &&& valid_states(m.app_state, m.game_state)
    &&& all_spawn(m.queue)
    &&& m.queue.len() >= 7
    &&& m.app_state != AppState::GameOver ==> !overflowing(m.grid)
    &&& m.piece matches Some(p) ==> m.app_state == AppState::InGame && piece_ok(p, m.grid)
}

/// The timers with their countdowns started over.
pub open spec fn timers_reset(m: GameModel) -> GameModel {
    GameModel {
        auto_move_timer: Timer::fresh(m.auto_move_timer.duration, m.auto_move_timer.mode),
        manually_move_timer: Timer::fresh(m.manually_move_timer.duration, m.manually_move_timer.mode),
        lock_timer: Timer::fresh(m.lock_timer.duration, m.lock_timer.mode),
        ..m
    }
}

/// The session after a reset: the board is empty, score and lines are
/// zero, no piece is falling, the queue holds the fresh cycle and nothing
/// else, and the timers start over.
pub open spec fn reset_model(m: GameModel, cycle: Seq<PieceConfig>) -> GameModel {
    GameModel {
        grid: Seq::empty(),
        piece: None,
        queue: cycle,
        score: Score(0),
        lines: Lines(0),
        ..timers_reset(m)
    }
}

/// The session once the queue is topped up and a piece is falling.
pub open spec fn with_piece(m: GameModel, cycle: Seq<PieceConfig>) -> GameModel {
    if m.piece is None {
        GameModel {
            piece: piece_model(piece_generated(None, m.queue, cycle)),
            queue: queue_generated(None, m.queue, cycle),
            ..m
        }
    } else {
        m
    }
}

/// The piece after the rotation command, if one was given.
pub open spec fn turned(p: PieceModel, grid: Grid, rotate: bool) -> PieceModel {
    if rotate {
        let after = after_rotation(p.piece_type, p.orientation, p.cells, grid);
        PieceModel { orientation: after.0, cells: after.1, ..p }
    } else {
        p
    }
}

/// Whether the rotation command, if one was given, turned the piece.
pub open spec fn turns(p: PieceModel, grid: Grid, rotate: bool) -> bool {
    rotate && rotation_of(p.piece_type, p.orientation, p.cells, grid) is Some
}

/// The piece after gravity and the player's step.
pub open spec fn moved(p: PieceModel, m: GameModel, delta: u64, input: Input) -> PieceModel {
    let cells = after_motion(
        p.cells,
        m.grid,
        m.auto_move_timer.ticked(delta).just_finished,
        m.manually_move_timer.ticked(delta).finished,
        input,
    );
    PieceModel { cells, movable: movable_of(cells, m.grid), ..p }
}

/// The step that the player gets in this tick.
pub open spec fn player_step(p: PieceModel, m: GameModel, delta: u64, input: Input) -> (int, int) {
    step_taken(
        p.cells,
        m.grid,
        m.auto_move_timer.ticked(delta).just_finished,
        m.manually_move_timer.ticked(delta).finished,
        input,
    )
}

/// Whether gravity or the player moves the piece in this tick.
pub open spec fn moves(p: PieceModel, m: GameModel, delta: u64, input: Input) -> bool {
    ||| descends(p.cells, m.grid, m.auto_move_timer.ticked(delta).just_finished)
    ||| player_step(p, m, delta, input) != (0int, 0int)
}

/// The lock-delay timer after the movement of this tick: a step to a side
/// starts it over.
pub open spec fn lock_timer_after_motion(p: PieceModel, m: GameModel, delta: u64, input: Input) -> Timer {
    if player_step(p, m, delta, input).0 != 0 {
        Timer::fresh(m.lock_timer.duration, m.lock_timer.mode)
    } else {
        m.lock_timer
    }
}

/// Whether the piece, turned and moved, locks in this tick: it cannot
/// descend, and the grace period runs out or the player confirms the drop.
pub open spec fn piece_locks(p: PieceModel, m: GameModel, delta: u64, input: Input) -> bool {
    let rested = moved(turned(p, m.grid, input.rotate), m, delta, input);
    &&& !rested.movable.can_down
    &&& locks(
        lock_timer_after_motion(turned(p, m.grid, input.rotate), m, delta, input),
        input.confirm_drop,
        delta,
    )
}

/// The session after the falling piece has been turned and moved and the
/// timers have advanced; the piece has not yet been locked.
pub open spec fn after_movement(p: PieceModel, m: GameModel, delta: u64, input: Input) -> GameModel {
    let t = turned(p, m.grid, input.rotate);
    let rested = moved(t, m, delta, input);
    let lock_timer = lock_timer_after_motion(t, m, delta, input);
    GameModel {
        piece: Some(rested),
        auto_move_timer: m.auto_move_timer.ticked(delta),
        manually_move_timer: if player_step(t, m, delta, input) != (0int, 0int) {
            Timer::fresh(m.manually_move_timer.duration, m.manually_move_timer.mode)
        } else {
            m.manually_move_timer.ticked(delta)
        },
        lock_timer: if rested.movable.can_down || piece_locks(p, m, delta, input) {
            Timer::fresh(lock_timer.duration, lock_timer.mode)
        } else {
            lock_timer.ticked(delta)
        },
        ..m
    }
}

/// The grid once the piece `p` has settled on it.
pub open spec fn grid_with(m: GameModel, p: PieceModel) -> Grid {
    settled(m.grid, p.cells, p.piece_type)
}

/// The session after the piece `p` has locked: it settles on the board, the
/// full rows are cleared and counted, and the rows above them drop. If a
/// settled cell has then reached the overflow row the game is over: no piece
/// is falling and the timers start over. Otherwise the next piece enters
/// play.
pub open spec fn after_lock(m: GameModel, p: PieceModel, cycle: Seq<PieceConfig>) -> GameModel {
    let full = grid_with(m, p);
    let count = full_row_count(full);
    let cleared = GameModel {
        grid: remaining_rows(full, full_row_set(full)),
        piece: None,
        score: Score((m.score.0 + line_score(count as int)) as u32),
        lines: Lines((m.lines.0 + count) as u32),
        ..m
    };
    if overflowing(cleared.grid) {
        GameModel {
            app_state: AppState::GameOver,
            game_state: GameState::GameQuited,
            ..timers_reset(cleared)
        }
    } else {
        with_piece(cleared, cycle)
    }
}

/// The session after one tick of play with the piece `p` falling.
pub open spec fn after_play(
    p: PieceModel,
    m: GameModel,
    delta: u64,
    input: Input,
    cycle: Seq<PieceConfig>,
) -> GameModel {
    let rested = after_movement(p, m, delta, input);
    if piece_locks(p, m, delta, input) {
        after_lock(rested, rested.piece->0, cycle)
    } else {
        rested
    }
}

/// The session after one tick of `delta` microseconds.
///
/// A restarted game begins to play. Outside play nothing else changes. In
/// play, the queue is topped up from `cycle` when it is short, and a piece
/// enters play where none is falling; the piece turns if the player asks;
/// gravity and the player's step move it; it locks if it rests and its
/// grace period is over; and a locked piece settles, completes lines,
/// scores, and may end the game.
pub open spec fn step(m: GameModel, delta: u64, input: Input, cycle: Seq<PieceConfig>) -> GameModel {
    let begun = GameModel { game_state: play_started(m.game_state), ..m };
    if !is_playing(begun.app_state, begun.game_state) {
        begun
    } else {
        let ready = with_piece(begun, cycle);
        match ready.piece {
            Some(p) => after_play(p, ready, delta, input, cycle),
            None => ready,
        }
    }
}

/// What one tick of `delta` microseconds reports.
pub open spec fn step_events(m: GameModel, delta: u64, input: Input, cycle: Seq<PieceConfig>) -> Events {
    let begun = GameModel { game_state: play_started(m.game_state), ..m };
    let ready = with_piece(begun, cycle);
    let after = step(m, delta, input, cycle);
    if is_playing(begun.app_state, begun.game_state) && ready.piece is Some {
        let p = ready.piece->0;
        let t = turned(p, ready.grid, input.rotate);
        let locked = piece_locks(p, ready, delta, input);
        let full = grid_with(ready, after_movement(p, ready, delta, input).piece->0);
        Events {
            piece_moved: turns(p, ready.grid, input.rotate) || moves(t, ready, delta, input),
            piece_locked: locked,
            lines_cleared: if locked { full_row_count(full) as u32 } else { 0 },
            game_over_triggered: locked && after.app_state == AppState::GameOver,
            state_changed: (after.app_state, after.game_state) != (m.app_state, m.game_state),
        }
    } else {
        Events {
            piece_moved: false,
            piece_locked: false,
            lines_cleared: 0,
            game_over_triggered: false,
            state_changed: after.game_state != m.game_state,
        }
    }
}

/// The session after a menu button: the states go where the button leads,
/// and where the button resets the game, the session is reset with the
/// fresh cycle.
pub open spec fn clicked(m: GameModel, action: MenuButtonAction, cycle: Seq<PieceConfig>) -> GameModel {
    let target = button_target(m.app_state, m.game_state, action);
    let led = GameModel { app_state: target.0, game_state: target.1, ..m };
    if button_resets(m.app_state, m.game_state, action) {
        reset_model(led, cycle)
    } else {
        led
    }
}

/// The session after a command of the life cycle: pause stops play, and
/// the other commands act as the menu buttons of their names. A command
/// for the falling piece changes nothing here: it goes into the input of
/// the next tick.
pub open spec fn commanded(m: GameModel, command: Command, cycle: Seq<PieceConfig>) -> GameModel {
    match command {
        Command::Pause => if m.game_state == GameState::GamePlaying {
            GameModel { game_state: GameState::GamePaused, ..m }
        } else {
            m
        },
        Command::Resume => clicked(m, MenuButtonAction::ResumeGame, cycle),
        Command::Start => clicked(m, MenuButtonAction::StartGame, cycle),
        Command::Restart => clicked(m, MenuButtonAction::RestartGame, cycle),
        Command::ReturnToMenu => clicked(m, MenuButtonAction::BackToMainMenu, cycle),
        _ => m,
    }
}

} // verus!
