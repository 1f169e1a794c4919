//! One game session: board, falling piece, queue, counters, timers and the
//! state of the application, advanced one tick at a time.

use vstd::prelude::*;
use crate::board::{
    Board, cell_free, check_full_line, check_game_over, clear_game_board, full_row_count,
    overflowing,
};
use crate::common::{AppState, GameState};
use crate::laws::{
    lock_keeps_invariant, movement_keeps_invariant, session_keeps_cycles,
    with_piece_keeps_invariant,
};
use crate::menu::{
    ButtonOutcome, Command, MenuButtonAction, button_resets, click_button, pause_game,
    pause_toggled, play_game,
};
use crate::model::{
    Events, GameModel, after_lock, after_movement, clicked, commanded, grid_with, model_inv,
    moved, moves, piece_locks, piece_model, reset_model, step, step_events, timers_reset, turned,
    turns, with_piece,
};
use crate::motion::{
    AutoMovePieceDownTimer, Input, ManuallyMoveTimer, RemovePieceComponentTimer, move_piece,
    remove_piece_component, AUTO_MOVE_MILLIS, LOCK_DELAY_MILLIS, MANUAL_MOVE_MILLIS,
};
use crate::piece::{ActivePiece, PieceConfig, PieceType};
use crate::queue::{PieceQueue, generate_new_piece, in_cycles};
use crate::randomizer::{is_bag, random_7_pieces};
use crate::rotation::{is_in_shape, rotate_piece, whether_colliding};
use crate::stats::{Lines, Score, reset_lines, reset_score};
use crate::timer::{Timer, TimerMode};

verus! {

/// One game session.
pub struct Game {
    pub app_state: AppState,
    pub game_state: GameState,
    pub board: Board,
    pub piece: Option<ActivePiece>,
    pub queue: PieceQueue,
    pub score: Score,
    pub lines: Lines,
    pub auto_move_timer: AutoMovePieceDownTimer,
    pub manually_move_timer: ManuallyMoveTimer,
    pub lock_timer: RemovePieceComponentTimer,
}

impl View for Game {
    type V = GameModel;

    open spec fn view(&self) -> GameModel {
        GameModel {
            app_state: self.app_state,
            game_state: self.game_state,
            grid: self.board@,
            piece: piece_model(self.piece),
            queue: self.queue@,
            score: self.score,
            lines: self.lines,
            auto_move_timer: self.auto_move_timer.0,
            manually_move_timer: self.manually_move_timer.0,
            lock_timer: self.lock_timer.0,
        }
    }
}

impl Game {
    /// The invariant of a session.
    pub open spec fn inv(&self) -> bool {
        model_inv(self@)
    }

    /// Whether the session keeps its invariant. A session that was made by
    /// `new` or `new_with` and changed through the functions of this
    /// library does; one whose fields were set by hand may not.
    pub fn is_valid(&self) -> (ok: bool)
        ensures
            ok == self.inv(),
    {
        if !self.board.is_wf() {
            return false;
        }
        let in_game = self.app_state == AppState::InGame;
        let piece_ok = match self.piece {
            Some(p) => in_game && !whether_colliding(&p.blocks, &self.board) && is_in_shape(
                p.piece_type,
                p.orientation,
                &p.blocks,
            ),
            None => true,
        };
        let rows = self.board.full_rows();
        piece_ok && rows.len() == 0 && (in_game == (self.game_state != GameState::GameQuited))
            && self.queue.holds_spawns() && self.queue.len() >= 7 && (self.app_state
            == AppState::GameOver || !self.board.is_overflowing())
    }

    /// A session at the main menu, with an empty board and the given cycle
    /// as its queue.
    pub fn new_with(cycle: &Vec<PieceConfig>) -> (game: Game)
        requires
            is_bag(cycle@),
        ensures
            game.inv(),
            game.app_state == AppState::MainMenu,
            game.game_state == GameState::GameQuited,
            game@.grid == Seq::<Seq<Option<PieceType>>>::empty(),
            game.piece is None,
            game.queue@ == cycle@,
            in_cycles(game.queue@),
            game.score.0 == 0,
            game.lines.0 == 0,
            game.auto_move_timer.0 == Timer::fresh(
                (AUTO_MOVE_MILLIS * 1000) as u64,
                TimerMode::Repeating,
            ),
            game.manually_move_timer.0 == Timer::fresh(
                (MANUAL_MOVE_MILLIS * 1000) as u64,
                TimerMode::Once,
            ),
            game.lock_timer.0 == Timer::fresh((LOCK_DELAY_MILLIS * 1000) as u64, TimerMode::Once),
    {
        let mut queue = PieceQueue::new();
        queue.rebuild(cycle);
        Game {
            app_state: AppState::MainMenu,
            game_state: GameState::GameQuited,
            board: Board::new(),
            piece: None,
            queue,
            score: Score(0),
            lines: Lines(0),
            auto_move_timer: AutoMovePieceDownTimer(
                Timer::from_millis(AUTO_MOVE_MILLIS, TimerMode::Repeating),
            ),
            manually_move_timer: ManuallyMoveTimer(
                Timer::from_millis(MANUAL_MOVE_MILLIS, TimerMode::Once),
            ),
            lock_timer: RemovePieceComponentTimer(
                Timer::from_millis(LOCK_DELAY_MILLIS, TimerMode::Once),
            ),
        }
    }

    /// A session at the main menu, with an empty board and one random cycle
    /// as its queue.
    pub fn new() -> (game: Game)
        ensures
            game.inv(),
            game.app_state == AppState::MainMenu,
            game.game_state == GameState::GameQuited,
            game@.grid == Seq::<Seq<Option<PieceType>>>::empty(),
            game.piece is None,
            is_bag(game.queue@),
            in_cycles(game.queue@),
            game.score.0 == 0,
            game.lines.0 == 0,
    {
        let cycle = random_7_pieces();
        Game::new_with(&cycle)
    }

    /// Resets the session: the board is emptied, score and lines are set to
    /// zero, the falling piece is discarded, the queue is rebuilt from the
    /// given cycle, and the timers start over. The states stay.
    pub fn reset_with(&mut self, cycle: &Vec<PieceConfig>)
        ensures
            final(self)@ == reset_model(old(self)@, cycle@),
    {
        clear_game_board(&mut self.board, &mut self.piece);
        reset_score(&mut self.score);
        reset_lines(&mut self.lines);
        self.queue.rebuild(cycle);
        self.reset_timers();
    }

    fn reset_timers(&mut self)
        ensures
            final(self)@ == timers_reset(old(self)@),
    {
        self.auto_move_timer.0.reset();
        self.manually_move_timer.0.reset();
        self.lock_timer.0.reset();
    }

    /// Carries out the press of a menu button, resetting the session with
    /// the given cycle where the button asks for it.
    pub fn click_with(&mut self, action: MenuButtonAction, cycle: &Vec<PieceConfig>) -> (outcome:
        ButtonOutcome)
        requires
            old(self).inv(),
            is_bag(cycle@),
        ensures
            final(self).inv(),
            final(self)@ == clicked(old(self)@, action, cycle@),
            outcome.changed == ((final(self).app_state, final(self).game_state) != (
                old(self).app_state,
                old(self).game_state,
            )),
            outcome.reset == button_resets(old(self).app_state, old(self).game_state, action),
            outcome.exit == (action == MenuButtonAction::Quit),
            in_cycles(old(self).queue@) ==> in_cycles(final(self).queue@),
    {
        let outcome = click_button(&mut self.app_state, &mut self.game_state, action);
        if outcome.reset {
            self.reset_with(cycle);
            proof {
                assert(full_row_count(self@.grid) == 0);
                assert(!overflowing(self@.grid));
            }
        }
        outcome
    }

    /// Carries out the press of a menu button, resetting the session with a
    /// random cycle where the button asks for it.
    pub fn click(&mut self, action: MenuButtonAction) -> (outcome: ButtonOutcome)
        requires
            old(self).inv(),
        ensures
            final(self).inv(),
            exists|cycle: Seq<PieceConfig>|
                is_bag(cycle) && final(self)@ == clicked(old(self)@, action, cycle),
            outcome.changed == ((final(self).app_state, final(self).game_state) != (
                old(self).app_state,
                old(self).game_state,
            )),
            outcome.reset == button_resets(old(self).app_state, old(self).game_state, action),
            outcome.exit == (action == MenuButtonAction::Quit),
            in_cycles(old(self).queue@) ==> in_cycles(final(self).queue@),
    {
        let cycle = random_7_pieces();
        self.click_with(action, &cycle)
    }

    /// Carries out a command of the life cycle, resetting the session with
    /// the given cycle where the command asks for it. Returns whether the
    /// states changed, whether the session was reset, and whether the
    /// application is to end.
    pub fn command_with(&mut self, command: Command, cycle: &Vec<PieceConfig>) -> (outcome:
        ButtonOutcome)
        requires
            old(self).inv(),
            is_bag(cycle@),
        ensures
            final(self).inv(),
            final(self)@ == commanded(old(self)@, command, cycle@),
            outcome.changed == ((final(self).app_state, final(self).game_state) != (
                old(self).app_state,
                old(self).game_state,
            )),
            outcome.exit == (command == Command::Quit),
            in_cycles(old(self).queue@) ==> in_cycles(final(self).queue@),
    {
        match command {
            Command::Pause => {
                let changed = self.game_state == GameState::GamePlaying;
                if changed {
                    self.game_state = GameState::GamePaused;
                }
                ButtonOutcome { changed, reset: false, exit: false }
            },
            Command::Resume => self.click_with(MenuButtonAction::ResumeGame, cycle),
            Command::Start => self.click_with(MenuButtonAction::StartGame, cycle),
            Command::Restart => self.click_with(MenuButtonAction::RestartGame, cycle),
            Command::ReturnToMenu => self.click_with(MenuButtonAction::BackToMainMenu, cycle),
            Command::Quit => ButtonOutcome { changed: false, reset: false, exit: true },
            _ => ButtonOutcome { changed: false, reset: false, exit: false },
        }
    }

    /// Carries out a command of the life cycle, resetting the session with
    /// a random cycle where the command asks for it.
    pub fn command(&mut self, command: Command) -> (outcome: ButtonOutcome)
        requires
            old(self).inv(),
        ensures
            final(self).inv(),
            exists|cycle: Seq<PieceConfig>|
                is_bag(cycle) && final(self)@ == commanded(old(self)@, command, cycle),
            outcome.changed == ((final(self).app_state, final(self).game_state) != (
                old(self).app_state,
                old(self).game_state,
            )),
            outcome.exit == (command == Command::Quit),
            in_cycles(old(self).queue@) ==> in_cycles(final(self).queue@),
    {
        let cycle = random_7_pieces();
        self.command_with(command, &cycle)
    }

    /// The piece that enters play next.
    pub fn next_piece(&self) -> (next: PieceConfig)
        requires
            self.inv(),
        ensures
            next == self.queue@[0],
    {
        self.queue.0[0]
    }

    /// Whether the next tick can count a locked piece: the counters have
    /// room for four more lines and their points.
    pub fn has_room(&self) -> (room: bool)
        ensures
            room == (self.score.0 + 800 <= u32::MAX && self.lines.0 + 4 <= u32::MAX),
    {
        self.score.0 <= u32::MAX - 800 && self.lines.0 <= u32::MAX - 4
    }

    /// Carries out the pause key: play pauses, and a paused game plays on.
    /// Returns whether the state changed.
    pub fn pause(&mut self) -> (changed: bool)
        requires
            old(self).inv(),
        ensures
            final(self).inv(),
            final(self)@ == (GameModel { game_state: pause_toggled(old(self).game_state), ..old(self)@ }),
            changed == (final(self).game_state != old(self).game_state),
    {
        pause_game(&mut self.game_state)
    }

    /// Turns and moves the falling piece and evaluates its lock delay.
    /// Returns whether the piece moved and whether it locks.
    fn move_falling_piece(&mut self, delta: u64, input: &Input) -> (report: (bool, bool))
        requires
            old(self).inv(),
            old(self).piece is Some,
        ensures
            final(self).inv(),
            final(self).piece is Some,
            final(self)@ == after_movement(old(self).piece->0@, old(self)@, delta, *input),
            report.0 == (turns(old(self).piece->0@, old(self)@.grid, input.rotate) || moves(
                turned(old(self).piece->0@, old(self)@.grid, input.rotate),
                old(self)@,
                delta,
                *input,
            )),
            report.1 == piece_locks(old(self).piece->0@, old(self)@, delta, *input),
    {
        let ghost ready = self@;
        let mut piece: ActivePiece = match self.piece {
            Some(piece) => piece,
            None => {
                return (false, false);
            },
        };
        let ghost p = piece@;
        let has_turned = input.rotate && rotate_piece(&mut piece, &self.board);
        assert(piece@ == turned(p, ready.grid, input.rotate));
        let has_moved = move_piece(
            &mut piece,
            &self.board,
            input,
            &mut self.manually_move_timer,
            &mut self.auto_move_timer,
            &mut self.lock_timer,
            delta,
        );
        assert(piece@ == moved(turned(p, ready.grid, input.rotate), ready, delta, *input));
        let locked = remove_piece_component(&piece, &mut self.lock_timer, input.confirm_drop, delta);
        self.piece = Some(piece);
        proof {
            movement_keeps_invariant(p, ready, delta, *input);
            assert(self@ == after_movement(p, ready, delta, *input));
        }
        (has_turned || has_moved, locked)
    }

    /// Locks the falling piece: it settles, full lines are cleared and
    /// scored, the overflow row is checked, and the next piece enters play
    /// unless the game is over. Returns the number of lines cleared and
    /// whether the game is over.
    fn lock_falling_piece(&mut self, cycle: &Vec<PieceConfig>) -> (report: (u32, bool))
        requires
            old(self).inv(),
            old(self).piece is Some,
            is_bag(cycle@),
            old(self).score.0 + 800 <= u32::MAX,
            old(self).lines.0 + 4 <= u32::MAX,
        ensures
            final(self).inv(),
            final(self)@ == after_lock(old(self)@, old(self).piece->0@, cycle@),
            report.0 == full_row_count(grid_with(old(self)@, old(self).piece->0@)),
            report.1 == (final(self).app_state == AppState::GameOver),
    {
        let ghost rested = self@;
        let piece: ActivePiece = match self.piece {
            Some(piece) => piece,
            None => {
                return (0, false);
            },
        };
        proof {
            lock_keeps_invariant(rested, piece@, cycle@);
            assert forall|i: int| 0 <= i < 4 implies (#[trigger] piece.blocks[i]).in_bounds() by {
                assert(cell_free(rested.grid, piece@.cells[i]));
            }
        }
        self.board.settle(&piece.blocks, piece.piece_type);
        self.piece = None;
        let count = check_full_line(&mut self.board, &mut self.score, &mut self.lines);
        let over = check_game_over(&self.board, &mut self.app_state, &mut self.game_state);
        if over {
            self.reset_timers();
        } else {
            generate_new_piece(&mut self.piece, &mut self.queue, cycle);
        }
        assert(self@ == after_lock(rested, piece@, cycle@));
        (count, over)
    }

    /// Advances the session by one tick of `delta` microseconds, topping up
    /// the queue from the given cycle where it runs short.
    ///
    /// A restarted game begins to play. Outside play nothing else happens.
    /// In play the steps are, in this order: the queue is topped up and a
    /// piece enters play where none is falling; the piece turns if the
    /// player asks; the directions in which it can move are found, gravity
    /// and the player's step move it, and the directions are found again;
    /// the lock delay is evaluated; and if the piece locks, it settles,
    /// full lines are cleared and scored, the overflow row is checked, and
    /// the next piece enters play unless the game is over.
    pub fn tick_with(&mut self, delta: u64, input: &Input, cycle: &Vec<PieceConfig>) -> (events:
        Events)
        requires
            old(self).inv(),
            is_bag(cycle@),
            old(self).score.0 + 800 <= u32::MAX,
            old(self).lines.0 + 4 <= u32::MAX,
        ensures
            final(self).inv(),
            final(self)@ == step(old(self)@, delta, *input, cycle@),
            events == step_events(old(self)@, delta, *input, cycle@),
            in_cycles(old(self).queue@) ==> in_cycles(final(self).queue@),
    {
        proof {
            if in_cycles(old(self).queue@) {
                session_keeps_cycles(old(self)@, delta, *input, MenuButtonAction::Quit, cycle@);
            }
        }
        let started = play_game(&mut self.game_state);
        let ghost begun = self@;
        let mut events = Events {
            piece_moved: false,
            piece_locked: false,
            lines_cleared: 0,
            game_over_triggered: false,
            state_changed: started,
        };
        if !(self.app_state == AppState::InGame && self.game_state == GameState::GamePlaying) {
            return events;
        }
        generate_new_piece(&mut self.piece, &mut self.queue, cycle);
        proof {
            with_piece_keeps_invariant(begun, cycle@);
            assert(self@ == with_piece(begun, cycle@));
        }
        let (has_moved, locked) = self.move_falling_piece(delta, input);
        events.piece_moved = has_moved;
        events.piece_locked = locked;
        if locked {
            let (count, over) = self.lock_falling_piece(cycle);
            events.lines_cleared = count;
            events.game_over_triggered = over;
            events.state_changed = started || over;
        }
        events
    }

    /// Advances the session by one tick of `delta` microseconds, topping up
    /// the queue with a random cycle where it runs short.
    pub fn tick(&mut self, delta: u64, input: &Input) -> (events: Events)
        requires
            old(self).inv(),
            old(self).score.0 + 800 <= u32::MAX,
            old(self).lines.0 + 4 <= u32::MAX,
        ensures
            final(self).inv(),
            exists|cycle: Seq<PieceConfig>|
                {
                    &&& is_bag(cycle)
                    &&& final(self)@ == step(old(self)@, delta, *input, cycle)
                    &&& events == step_events(old(self)@, delta, *input, cycle)
                },
            in_cycles(old(self).queue@) ==> in_cycles(final(self).queue@),
    {
        let cycle = random_7_pieces();
        self.tick_with(delta, input, &cycle)
    }
}

} // verus!
