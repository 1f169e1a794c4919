//! What holds of every game session: the invariant that each tick keeps,
//! and the laws of locking, game over and reset.

use vstd::prelude::*;
use crate::board::{
    Grid, cell_free, collapse_height, collapse_leaves_no_full_row, fits, full_row_count,
    full_row_set, full_rows_below, grid_cell, grid_wf, overflowing, remaining_row_source,
    remaining_rows, row_full, settled, top_row, translated,
};
use crate::common::{AppState, GameState, is_playing};
use crate::menu::{MenuButtonAction, button_resets, play_started};
use crate::model::{
    GameModel, after_lock, after_movement, clicked, grid_with, lock_timer_after_motion,
    model_inv, moved, piece_locks, piece_ok, player_step, step, step_events, turned, with_piece,
};
use crate::motion::{Input, after_descent, motion_is_safe, step_taken};
use crate::piece::{Orientation, PieceConfig, PieceModel, PieceType, cells_of, shape_of};
use crate::queue::{generation_keeps_cycles, in_cycles, spawned};
use crate::randomizer::is_bag;
use crate::rotation::{
    first_fit, has_shape, kick_offset, nominal_rotation, oriented_shape, rotation_of,
    turn_keeps_shape,
};
use crate::stats::{Lines, Score, line_score};
use crate::timer::Timer;

verus! {

/// Every shape has four cells in every rotation state.
pub proof fn shape_has_four_cells(piece_type: PieceType, orientation: Orientation)
    ensures
        oriented_shape(piece_type, orientation).len() == 4,
{
    reveal(oriented_shape);
}

/// A piece that is moved keeps its shape.
pub proof fn translation_keeps_shape(
    piece_type: PieceType,
    orientation: Orientation,
    cells: Seq<(int, int)>,
    dx: int,
    dy: int,
)
    requires
        has_shape(piece_type, orientation, cells),
    ensures
        has_shape(piece_type, orientation, translated(cells, dx, dy)),
        translated(cells, dx, dy).len() == 4,
{
    shape_has_four_cells(piece_type, orientation);
    let shape = oriented_shape(piece_type, orientation);
    let after = translated(cells, dx, dy);
    assert(after =~= translated(shape, after[0].0 - shape[0].0, after[0].1 - shape[0].1));
}

/// A piece that enters play on a board whose settled cells lie below the
/// overflow row has its shape and is clear of them.
pub proof fn spawn_is_ok(config: PieceConfig, grid: Grid)
    requires
        config.is_spawn(),
        !overflowing(grid),
    ensures
        piece_ok(spawned(config)@, grid),
{
    reveal(oriented_shape);
    let p = spawned(config)@;
    let shape = oriented_shape(p.piece_type, p.orientation);
    assert(shape == cells_of(shape_of(p.piece_type)));
    assert(p.cells =~= translated(shape, p.cells[0].0 - shape[0].0, p.cells[0].1 - shape[0].1));
    assert forall|i: int| 0 <= i < p.cells.len() implies cell_free(grid, #[trigger] p.cells[i]) by {
        assert(p.cells[i].1 >= 20);
        assert(grid_cell(grid, p.cells[i].0, p.cells[i].1) is None);
    }
}

/// A rotation command leaves the piece in its shape and clear of the
/// settled cells.
pub proof fn rotation_is_ok(p: PieceModel, grid: Grid, rotate: bool)
    requires
        piece_ok(p, grid),
    ensures
        piece_ok(turned(p, grid, rotate), grid),
{
    if rotate && rotation_of(p.piece_type, p.orientation, p.cells, grid) is Some {
        shape_has_four_cells(p.piece_type, p.orientation);
        let shape = oriented_shape(p.piece_type, p.orientation);
        let dx = p.cells[0].0 - shape[0].0;
        let dy = p.cells[0].1 - shape[0].1;
        turn_keeps_shape(p.piece_type, p.orientation, dx, dy);
        let nominal = nominal_rotation(p.piece_type, p.orientation, p.cells);
        let k = first_fit(grid, nominal)->0;
        translation_keeps_shape(p.piece_type, p.orientation.turned(), nominal, kick_offset(k), 0);
    }
}

/// Gravity and the player's step leave the piece in its shape and clear of
/// the settled cells.
pub proof fn motion_is_ok(p: PieceModel, m: GameModel, delta: u64, input: Input)
    requires
        piece_ok(p, m.grid),
    ensures
        piece_ok(moved(p, m, delta, input), m.grid),
{
    let fired = m.auto_move_timer.ticked(delta).just_finished;
    let ready = m.manually_move_timer.ticked(delta).finished;
    motion_is_safe(p.cells, m.grid, fired, ready, input);
    let fallen = after_descent(p.cells, m.grid, fired);
    translation_keeps_shape(p.piece_type, p.orientation, p.cells, 0, -1);
    let step = step_taken(p.cells, m.grid, fired, ready, input);
    translation_keeps_shape(p.piece_type, p.orientation, fallen, step.0, step.1);
}

/// No cell lies above the highest of them.
pub proof fn top_row_is_highest(cells: Seq<(int, int)>, bound: int)
    requires
        -1 <= bound,
        forall|i: int| 0 <= i < cells.len() ==> (#[trigger] cells[i]).1 <= bound,
    ensures
        -1 <= top_row(cells) <= bound,
    decreases cells.len(),
{
    if cells.len() > 0 {
        top_row_is_highest(cells.drop_last(), bound);
    }
}

/// The grid stays well formed when a piece settles on free cells.
pub proof fn settled_is_wf(grid: Grid, cells: Seq<(int, int)>, tag: PieceType)
    requires
        grid_wf(grid),
        fits(grid, cells),
    ensures
        grid_wf(settled(grid, cells, tag)),
{
    top_row_is_highest(cells, i32::MAX as int);
}

/// The grid stays well formed when rows are cleared.
pub proof fn remaining_rows_are_wf(grid: Grid, cleared: Set<int>)
    requires
        grid_wf(grid),
    ensures
        grid_wf(remaining_rows(grid, cleared)),
{
    let after = remaining_rows(grid, cleared);
    collapse_height(grid, cleared);
    assert forall|j: int| 0 <= j < after.len() implies (#[trigger] after[j]).len() == 10 by {
        let y = remaining_row_source(grid, cleared, j);
    }
}

/// Where a row is full, the grid counts a full row.
pub proof fn full_row_is_counted(grid: Grid, y: int, n: int)
    requires
        0 <= y < n,
        row_full(grid, y),
    ensures
        full_rows_below(grid, n) >= 1,
    decreases n,
{
    if y < n - 1 {
        full_row_is_counted(grid, y, n - 1);
    }
}

/// One if `row` is a row below `n`, else zero.
pub open spec fn below(row: int, n: int) -> nat {
    if 0 <= row < n {
        1
    } else {
        0
    }
}

/// Where every full row is one of four given rows, at most four rows are
/// full.
pub proof fn four_rows_at_most(grid: Grid, n: int, a: int, b: int, c: int, d: int)
    requires
        forall|y: int| 0 <= y < n && row_full(grid, y) ==> y == a || y == b || y == c || y == d,
    ensures
        full_rows_below(grid, n) <= below(a, n) + below(b, n) + below(c, n) + below(d, n),
    decreases n,
{
    if n > 0 {
        four_rows_at_most(grid, n - 1, a, b, c, d);
    }
}

/// A piece completes at most four rows: on a grid without a full row, the
/// rows that are full once it has settled are rows of its four cells.
pub proof fn settle_completes_few_rows(grid: Grid, cells: Seq<(int, int)>, tag: PieceType)
    requires
        full_row_count(grid) == 0,
        cells.len() == 4,
    ensures
        full_row_count(settled(grid, cells, tag)) <= 4,
{
    let after = settled(grid, cells, tag);
    assert forall|y: int| 0 <= y < after.len() && row_full(after, y) implies y == cells[0].1 || y
        == cells[1].1 || y == cells[2].1 || y == cells[3].1 by {
        if !(y == cells[0].1 || y == cells[1].1 || y == cells[2].1 || y == cells[3].1) {
            assert forall|x: int| 0 <= x < 10 implies (#[trigger] grid_cell(grid, x, y)) is Some by {
                assert(grid_cell(after, x, y) is Some);
                assert(!cells.contains((x, y)));
            }
            assert(grid_cell(grid, 0, y) is Some);
            full_row_is_counted(grid, y, grid.len() as int);
        }
    }
    four_rows_at_most(after, after.len() as int, cells[0].1, cells[1].1, cells[2].1, cells[3].1);
}

/// Topping up the queue and letting a piece enter play keeps the invariant
/// and leaves a piece falling.
pub proof fn with_piece_keeps_invariant(m: GameModel, cycle: Seq<PieceConfig>)
    requires
        model_inv(m),
        m.app_state == AppState::InGame,
        is_bag(cycle),
    ensures
        model_inv(with_piece(m, cycle)),
        with_piece(m, cycle).piece is Some,
        with_piece(m, cycle).grid == m.grid,
        with_piece(m, cycle).app_state == m.app_state,
        with_piece(m, cycle).game_state == m.game_state,
{
    if m.piece is None {
        spawn_is_ok(m.queue[0], m.grid);
        let left = m.queue.drop_first();
        assert forall|i: int| 0 <= i < left.len() implies (#[trigger] left[i]).is_spawn() by {
            assert(left[i] == m.queue[i + 1]);
        }
    }
}

/// Turning and moving the falling piece keeps the invariant.
pub proof fn movement_keeps_invariant(p: PieceModel, m: GameModel, delta: u64, input: Input)
    requires
        model_inv(m),
        m.piece == Some(p),
    ensures
        model_inv(after_movement(p, m, delta, input)),
        after_movement(p, m, delta, input).piece is Some,
{
    rotation_is_ok(p, m.grid, input.rotate);
    motion_is_ok(turned(p, m.grid, input.rotate), m, delta, input);
}

/// Locking the falling piece keeps the invariant.
pub proof fn lock_keeps_invariant(m: GameModel, p: PieceModel, cycle: Seq<PieceConfig>)
    requires
        model_inv(m),
        m.piece == Some(p),
        is_bag(cycle),
    ensures
        model_inv(after_lock(m, p, cycle)),
        grid_wf(grid_with(m, p)),
        full_row_count(grid_with(m, p)) <= 4,
{
    let full = grid_with(m, p);
    settled_is_wf(m.grid, p.cells, p.piece_type);
    settle_completes_few_rows(m.grid, p.cells, p.piece_type);
    remaining_rows_are_wf(full, full_row_set(full));
    collapse_leaves_no_full_row(full);
    let count = full_row_count(full);
    let cleared = GameModel {
        grid: remaining_rows(full, full_row_set(full)),
        piece: None,
        score: Score((m.score.0 + line_score(count as int)) as u32),
        lines: Lines((m.lines.0 + count) as u32),
        ..m
    };
    if !overflowing(cleared.grid) {
        with_piece_keeps_invariant(cleared, cycle);
    }
}

/// Collision safety: a tick keeps the invariant of the session. So at the
/// end of every tick the falling piece, if there is one, has each of its
/// cells inside the walls, above the floor and clear of the settled cells.
pub proof fn step_keeps_invariant(m: GameModel, delta: u64, input: Input, cycle: Seq<PieceConfig>)
    requires
        model_inv(m),
        is_bag(cycle),
    ensures
        model_inv(step(m, delta, input, cycle)),
{
    let begun = GameModel { game_state: play_started(m.game_state), ..m };
    if is_playing(begun.app_state, begun.game_state) {
        with_piece_keeps_invariant(begun, cycle);
        let ready = with_piece(begun, cycle);
        let p = ready.piece->0;
        movement_keeps_invariant(p, ready, delta, input);
        let rested = after_movement(p, ready, delta, input);
        if piece_locks(p, ready, delta, input) {
            lock_keeps_invariant(rested, rested.piece->0, cycle);
        }
    }
}

/// Lock-delay grace: in play, a falling piece is still falling after the
/// tick, on the cells to which it turned and moved and with the board as it
/// was, unless at the end of its movement it cannot descend and either the
/// lock-delay timer then runs out or the player confirms the drop; in
/// that case it locks. A step to a side starts the lock-delay timer over
/// before the delay is evaluated.
pub proof fn lock_delay_grace(m: GameModel, delta: u64, input: Input, cycle: Seq<PieceConfig>)
    requires
        model_inv(m),
        is_bag(cycle),
        is_playing(m.app_state, m.game_state),
        m.piece is Some,
    ensures
        ({
            let p = m.piece->0;
            let ready = with_piece(m, cycle);
            let t = turned(p, m.grid, input.rotate);
            let rested = moved(t, ready, delta, input);
            let timer = lock_timer_after_motion(t, ready, delta, input);
            let after = step(m, delta, input, cycle);
            let lock = !rested.movable.can_down && (timer.ticked(delta).just_finished
                || input.confirm_drop);
            &&& lock == piece_locks(p, ready, delta, input)
            &&& !lock ==> after.piece == Some(rested) && after.grid == m.grid
            &&& lock ==> after.grid == remaining_rows(
                settled(m.grid, rested.cells, rested.piece_type),
                full_row_set(settled(m.grid, rested.cells, rested.piece_type)),
            )
            &&& player_step(t, ready, delta, input).0 != 0 ==> timer == Timer::fresh(
                m.lock_timer.duration,
                m.lock_timer.mode,
            )
            &&& !lock ==> after.lock_timer == if rested.movable.can_down {
                Timer::fresh(timer.duration, timer.mode)
            } else {
                timer.ticked(delta)
            }
        }),
{
    let p = m.piece->0;
    let ready = with_piece(m, cycle);
    assert(ready.piece == Some(p));
    let rested = after_movement(p, ready, delta, input);
    if piece_locks(p, ready, delta, input) {
        let full = grid_with(rested, rested.piece->0);
        if !overflowing(remaining_rows(full, full_row_set(full))) {
        }
    }
}

/// Game-over trigger: after any tick, a board on which a settled cell has
/// reached the overflow row means that the game is over and no piece is
/// falling; and once the game is over, a tick changes nothing.
pub proof fn game_over_trigger(m: GameModel, delta: u64, input: Input, cycle: Seq<PieceConfig>)
    requires
        model_inv(m),
        is_bag(cycle),
    ensures
        overflowing(step(m, delta, input, cycle).grid) ==> {
            &&& step(m, delta, input, cycle).app_state == AppState::GameOver
            &&& step(m, delta, input, cycle).piece is None
        },
        m.app_state == AppState::GameOver ==> step(m, delta, input, cycle) == m,
        !is_playing(m.app_state, play_started(m.game_state)) ==> step(m, delta, input, cycle).grid
            == m.grid,
{
    step_keeps_invariant(m, delta, input, cycle);
}

/// Score table: a tick in which the falling piece locks completes at most
/// four lines, adds their number to the lines, and adds 0, 100, 200, 400 or
/// 800 points to the score for 0, 1, 2, 3 or 4 lines; any other tick leaves
/// both counters as they are.
pub proof fn lock_scores_by_table(m: GameModel, delta: u64, input: Input, cycle: Seq<PieceConfig>)
    requires
        model_inv(m),
        is_bag(cycle),
        m.score.0 + 800 <= u32::MAX,
        m.lines.0 + 4 <= u32::MAX,
    ensures
        ({
            let after = step(m, delta, input, cycle);
            let count = step_events(m, delta, input, cycle).lines_cleared;
            &&& count <= 4
            &&& after.lines.0 == m.lines.0 + count
            &&& after.score.0 == m.score.0 + line_score(count as int)
            &&& !step_events(m, delta, input, cycle).piece_locked ==> count == 0
            &&& line_score(0) == 0 && line_score(1) == 100 && line_score(2) == 200 && line_score(3)
                == 400 && line_score(4) == 800
        }),
{
    let begun = GameModel { game_state: play_started(m.game_state), ..m };
    if is_playing(begun.app_state, begun.game_state) {
        with_piece_keeps_invariant(begun, cycle);
        let ready = with_piece(begun, cycle);
        let p = ready.piece->0;
        movement_keeps_invariant(p, ready, delta, input);
        let rested = after_movement(p, ready, delta, input);
        if piece_locks(p, ready, delta, input) {
            lock_keeps_invariant(rested, rested.piece->0, cycle);
        }
    }
}

/// Reset correctness: a button that leads into the main menu, into a
/// restarted game or from the main menu into play leaves the board empty,
/// score and lines at zero, no piece falling, and the fresh cycle as the
/// whole queue; and the session keeps its invariant.
pub proof fn reset_on_entry(m: GameModel, action: MenuButtonAction, cycle: Seq<PieceConfig>)
    requires
        model_inv(m),
        is_bag(cycle),
    ensures
        model_inv(clicked(m, action, cycle)),
        ({
            let after = clicked(m, action, cycle);
            let entered = (after.app_state, after.game_state) != (m.app_state, m.game_state) && (
            after.app_state == AppState::MainMenu || after.game_state == GameState::GameRestarted
                || m.app_state == AppState::MainMenu);
            entered ==> {
                &&& after.grid == Seq::<Seq<Option<PieceType>>>::empty()
                &&& after.score.0 == 0
                &&& after.lines.0 == 0
                &&& after.piece is None
                &&& after.queue == cycle
            }
        }),
{
    let after = clicked(m, action, cycle);
    if button_resets(m.app_state, m.game_state, action) {
        assert(full_row_count(after.grid) == 0);
        assert(!overflowing(after.grid));
    }
}

/// A tick never leads into the main menu or into a restarted game: those
/// are entered by a button only.
pub proof fn tick_enters_no_menu(m: GameModel, delta: u64, input: Input, cycle: Seq<PieceConfig>)
    ensures
        step(m, delta, input, cycle).app_state == AppState::MainMenu ==> m.app_state
            == AppState::MainMenu,
        step(m, delta, input, cycle).game_state != GameState::GameRestarted,
{
}

/// Bag fairness through the session: the upcoming pieces come cycle by
/// cycle after a tick and after a menu button if they did before, whatever
/// the session is in. So from a new session on the pieces enter play cycle
/// by cycle, each type once in every cycle.
pub proof fn session_keeps_cycles(
    m: GameModel,
    delta: u64,
    input: Input,
    action: MenuButtonAction,
    cycle: Seq<PieceConfig>,
)
    requires
        in_cycles(m.queue),
        is_bag(cycle),
    ensures
        in_cycles(step(m, delta, input, cycle).queue),
        in_cycles(clicked(m, action, cycle).queue),
{
    let begun = GameModel { game_state: play_started(m.game_state), ..m };
    generation_keeps_cycles(None, begun.queue, cycle);
    let ready = with_piece(begun, cycle);
    if is_playing(begun.app_state, begun.game_state) && ready.piece is Some {
        let p = ready.piece->0;
        let rested = after_movement(p, ready, delta, input);
        generation_keeps_cycles(None, rested.queue, cycle);
    }
}

} // verus!
