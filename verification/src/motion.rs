//! Movement of the falling piece: which way it can move, gravity and the
//! moves that the player asks for, and the grace period before it locks.

use vstd::prelude::*;
use crate::board::{Block, Board, Grid, cell_free, fits, translated};
use crate::menu::Command;
use crate::piece::{ActivePiece, Movable, cells_of, shift_piece};
use crate::timer::Timer;

verus! {

/// Period of the automatic descent, in milliseconds.
pub const AUTO_MOVE_MILLIS: u32 = 1000;

/// Shortest time between two moves that the player asks for, in
/// milliseconds.
pub const MANUAL_MOVE_MILLIS: u32 = 100;

/// Time that a piece rests before it locks, in milliseconds.
pub const LOCK_DELAY_MILLIS: u32 = 300;

/// Times the automatic descent of the falling piece.
#[derive(Debug, Clone, Copy, PartialEq, Eq, Structural)]
pub struct AutoMovePieceDownTimer(pub Timer);

/// Spaces out the moves that the player asks for.
#[derive(Debug, Clone, Copy, PartialEq, Eq, Structural)]
pub struct ManuallyMoveTimer(pub Timer);

/// Times the grace period of a piece that cannot descend.
#[derive(Debug, Clone, Copy, PartialEq, Eq, Structural)]
pub struct RemovePieceComponentTimer(pub Timer);

/// What the player asks of the falling piece during one tick.
#[derive(Debug, Clone, Copy, PartialEq, Eq, Structural)]
pub struct Input {
    pub move_left: bool,
    pub move_right: bool,
    pub soft_drop: bool,
    pub rotate: bool,
    pub confirm_drop: bool,
}

impl Input {
    /// The input with the command added: a command for the falling piece
    /// is noted, any other command leaves the input as it is.
    pub open spec fn with(self, command: Command) -> Input {
        match command {
            Command::MoveLeft => Input { move_left: true, ..self },
            Command::MoveRight => Input { move_right: true, ..self },
            Command::SoftDrop => Input { soft_drop: true, ..self },
            Command::Rotate => Input { rotate: true, ..self },
            Command::ConfirmDrop => Input { confirm_drop: true, ..self },
            _ => self,
        }
    }

    /// The input of a tick in which the player asks for nothing.
    pub fn none() -> (input: Input)
        ensures
            input == (Input {
                move_left: false,
                move_right: false,
                soft_drop: false,
                rotate: false,
                confirm_drop: false,
            }),
    {
        Input {
            move_left: false,
            move_right: false,
            soft_drop: false,
            rotate: false,
            confirm_drop: false,
        }
    }

    /// Notes a command for the falling piece.
    pub fn press(&mut self, command: Command)
        ensures
            *final(self) == old(self).with(command),
    {
        match command {
            Command::MoveLeft => {
                self.move_left = true;
            },
            Command::MoveRight => {
                self.move_right = true;
            },
            Command::SoftDrop => {
                self.soft_drop = true;
            },
            Command::Rotate => {
                self.rotate = true;
            },
            Command::ConfirmDrop => {
                self.confirm_drop = true;
            },
            _ => {},
        }
    }
}

/// The directions in which a piece on `cells` can move by one cell: the
/// piece moved that way is on the board and clear of settled cells.
pub open spec fn movable_of(cells: Seq<(int, int)>, grid: Grid) -> Movable {
    Movable {
        can_down: fits(grid, translated(cells, 0, -1)),
        can_left: fits(grid, translated(cells, -1, 0)),
        can_right: fits(grid, translated(cells, 1, 0)),
    }
}

/// Finds the directions in which the piece can move by one cell.
pub fn check_collision(blocks: &[Block; 4], board: &Board) -> (movable: Movable)
    ensures
        movable == movable_of(cells_of(blocks@), board@),
{
    let ghost cells = cells_of(blocks@);
    let mut can_down = true;
    let mut can_left = true;
    let mut can_right = true;
    let mut i: usize = 0;
    while i < 4
        invariant
            i <= 4,
            cells == cells_of(blocks@),
            can_down == forall|j: int| 0 <= j < i ==> cell_free(board@, #[trigger] translated(cells, 0, -1)[j]),
            can_left == forall|j: int| 0 <= j < i ==> cell_free(board@, #[trigger] translated(cells, -1, 0)[j]),
            can_right == forall|j: int| 0 <= j < i ==> cell_free(board@, #[trigger] translated(cells, 1, 0)[j]),
        decreases 4 - i,
    {
        let block = blocks[i];
        let x: i64 = block.x as i64;
        let y: i64 = block.y as i64;
        let down = board.is_free(x, y - 1);
        let left = board.is_free(x - 1, y);
        let right = board.is_free(x + 1, y);
        proof {
            assert(translated(cells, 0, -1)[i as int] == (x as int, y - 1));
            assert(translated(cells, -1, 0)[i as int] == (x - 1, y as int));
            assert(translated(cells, 1, 0)[i as int] == (x + 1, y as int));
        }
        can_down = can_down && down;
        can_left = can_left && left;
        can_right = can_right && right;
        i += 1;
    }
    Movable { can_down, can_left, can_right }
}

/// The move that the player gets: none while the manual-move timer runs;
/// else a step to the left if asked for and possible, else one to the
/// right, else one down, which is not given in a tick in which the piece
/// has already descended.
pub open spec fn manual_step(input: Input, ready: bool, movable: Movable, descended: bool) -> (int, int) {
    if !ready {
        (0, 0)
    } else if input.move_left && movable.can_left {
        (-1, 0)
    } else if input.move_right && movable.can_right {
        (1, 0)
    } else if input.soft_drop && movable.can_down && !descended {
        (0, -1)
    } else {
        (0, 0)
    }
}

/// Whether gravity takes the piece down in this tick: the descent timer has
/// run out and the piece can descend.
pub open spec fn descends(cells: Seq<(int, int)>, grid: Grid, auto_fired: bool) -> bool {
    auto_fired && movable_of(cells, grid).can_down
}

/// The cells after gravity has acted.
pub open spec fn after_descent(cells: Seq<(int, int)>, grid: Grid, auto_fired: bool) -> Seq<(int, int)> {
    if descends(cells, grid, auto_fired) {
        translated(cells, 0, -1)
    } else {
        cells
    }
}

/// The step that the player gets after gravity has acted.
pub open spec fn step_taken(
    cells: Seq<(int, int)>,
    grid: Grid,
    auto_fired: bool,
    manual_ready: bool,
    input: Input,
) -> (int, int) {
    manual_step(
        input,
        manual_ready,
        movable_of(after_descent(cells, grid, auto_fired), grid),
        descends(cells, grid, auto_fired),
    )
}

/// The cells at the end of the tick: gravity first, then the player's step.
pub open spec fn after_motion(
    cells: Seq<(int, int)>,
    grid: Grid,
    auto_fired: bool,
    manual_ready: bool,
    input: Input,
) -> Seq<(int, int)> {
    let step = step_taken(cells, grid, auto_fired, manual_ready, input);
    translated(after_descent(cells, grid, auto_fired), step.0, step.1)
}

/// A piece that fits the board still fits it after gravity and the
/// player's step.
pub proof fn motion_is_safe(
    cells: Seq<(int, int)>,
    grid: Grid,
    auto_fired: bool,
    manual_ready: bool,
    input: Input,
)
    requires
        fits(grid, cells),
    ensures
        fits(grid, after_motion(cells, grid, auto_fired, manual_ready, input)),
{
    let fallen = after_descent(cells, grid, auto_fired);
    assert(translated(fallen, 0, 0) =~= fallen);
}

fn shifted(piece: &mut ActivePiece, dx: i32, dy: i32)
    requires
        forall|i: int| 0 <= i < 4 ==> i32::MIN <= (#[trigger] old(piece).blocks[i]).x + dx <= i32::MAX,
        forall|i: int| 0 <= i < 4 ==> i32::MIN <= (#[trigger] old(piece).blocks[i]).y + dy <= i32::MAX,
    ensures
        cells_of(final(piece).blocks@) == translated(cells_of(old(piece).blocks@), dx as int, dy as int),
        final(piece).piece_type == old(piece).piece_type,
        final(piece).orientation == old(piece).orientation,
        final(piece).movable == old(piece).movable,
{
    piece.blocks = shift_piece(piece.blocks, Some(dx), Some(dy));
    assert(cells_of(piece.blocks@) =~= translated(cells_of(old(piece).blocks@), dx as int, dy as int));
}

/// Moves the falling piece for one tick.
///
/// Both timers advance by `delta` microseconds. The directions in which
/// the piece can move are found first. If the descent timer has run out in
/// this tick and the piece can descend, it goes down one row, and the
/// directions are found again. Then, if the manual-move timer is up, the
/// player gets one step: left, else right, else down, each only if asked
/// for and possible, and down only if the piece has not descended in this
/// tick. A step starts the manual-move timer over, and a step to a side
/// starts the lock-delay timer over. The piece ends with the directions in
/// which it can move from where it then is. Returns whether it moved.
pub fn move_piece(
    piece: &mut ActivePiece,
    board: &Board,
    input: &Input,
    manually_move_timer: &mut ManuallyMoveTimer,
    auto_move_timer: &mut AutoMovePieceDownTimer,
    lock_timer: &mut RemovePieceComponentTimer,
    delta: u64,
) -> (moved: bool)
    ensures
        final(piece).piece_type == old(piece).piece_type,
        final(piece).orientation == old(piece).orientation,
        final(auto_move_timer).0 == old(auto_move_timer).0.ticked(delta),
        ({
            let cells = cells_of(old(piece).blocks@);
            let fired = old(auto_move_timer).0.ticked(delta).just_finished;
            let ready = old(manually_move_timer).0.ticked(delta).finished;
            let step = step_taken(cells, board@, fired, ready, *input);
            &&& cells_of(final(piece).blocks@) == after_motion(cells, board@, fired, ready, *input)
            &&& final(piece).movable == movable_of(cells_of(final(piece).blocks@), board@)
            &&& moved == (descends(cells, board@, fired) || step != (0int, 0int))
            &&& final(manually_move_timer).0 == if step != (0int, 0int) {
                Timer::fresh(old(manually_move_timer).0.duration, old(manually_move_timer).0.mode)
            } else {
                old(manually_move_timer).0.ticked(delta)
            }
            &&& final(lock_timer).0 == if step.0 != 0 {
                Timer::fresh(old(lock_timer).0.duration, old(lock_timer).0.mode)
            } else {
                old(lock_timer).0
            }
        }),
{
    let ghost cells = cells_of(piece.blocks@);
    manually_move_timer.0.tick(delta);
    auto_move_timer.0.tick(delta);
    let mut movable = check_collision(&piece.blocks, board);
    let mut descended = false;
    if auto_move_timer.0.just_finished() && movable.can_down {
        proof {
            assert forall|i: int| 0 <= i < 4 implies 0 <= (#[trigger] piece.blocks[i]).y - 1 by {
                assert(cell_free(board@, translated(cells, 0, -1)[i]));
            }
        }
        shifted(piece, 0, -1);
        descended = true;
        movable = check_collision(&piece.blocks, board);
    }
    let ghost fallen = cells_of(piece.blocks@);
    let mut stepped = false;
    if manually_move_timer.0.finished() {
        if input.move_left && movable.can_left {
            proof {
                assert forall|i: int| 0 <= i < 4 implies 0 <= (#[trigger] piece.blocks[i]).x - 1 by {
                    assert(cell_free(board@, translated(fallen, -1, 0)[i]));
                }
            }
            shifted(piece, -1, 0);
            lock_timer.0.reset();
            stepped = true;
        } else if input.move_right && movable.can_right {
            proof {
                assert forall|i: int| 0 <= i < 4 implies (#[trigger] piece.blocks[i]).x + 1 < 10 by {
                    assert(cell_free(board@, translated(fallen, 1, 0)[i]));
                }
            }
            shifted(piece, 1, 0);
            lock_timer.0.reset();
            stepped = true;
        } else if input.soft_drop && movable.can_down && !descended {
            proof {
                assert forall|i: int| 0 <= i < 4 implies 0 <= (#[trigger] piece.blocks[i]).y - 1 by {
                    assert(cell_free(board@, translated(fallen, 0, -1)[i]));
                }
            }
            shifted(piece, 0, -1);
            stepped = true;
        }
    }
    if stepped {
        manually_move_timer.0.reset();
    } else {
        assert(translated(fallen, 0, 0) =~= fallen);
    }
    piece.movable = check_collision(&piece.blocks, board);
    descended || stepped
}

/// Whether the piece locks in this tick, given that it cannot descend: the
/// grace period has run out, or the player confirms the drop.
pub open spec fn locks(lock_timer: Timer, confirm_drop: bool, delta: u64) -> bool {
    lock_timer.ticked(delta).just_finished || confirm_drop
}

/// Decides whether the falling piece locks.
///
/// While the piece can descend, the lock-delay timer is held at its start
/// and the piece does not lock. While it cannot, the timer advances by
/// `delta` microseconds, and the piece locks when the timer runs out or the
/// player confirms the drop; the timer then starts over for the next
/// piece.
pub fn remove_piece_component(
    piece: &ActivePiece,
    timer: &mut RemovePieceComponentTimer,
    confirm_drop: bool,
    delta: u64,
) -> (locked: bool)
    ensures
        locked == (!piece.movable.can_down && locks(old(timer).0, confirm_drop, delta)),
        final(timer).0 == if piece.movable.can_down || locked {
            Timer::fresh(old(timer).0.duration, old(timer).0.mode)
        } else {
            old(timer).0.ticked(delta)
        },
{
    if piece.movable.can_down {
        timer.0.reset();
        return false;
    }
    timer.0.tick(delta);
    if timer.0.just_finished() || confirm_drop {
        timer.0.reset();
        true
    } else {
        false
    }
}

/// Whether a cell of the falling piece is shown: the cells above the
/// visible rows are hidden.
pub fn control_piece_visibility(block: &Block) -> (visible: bool)
    ensures
        visible == (block.y <= 19),
{
    block.y <= 19
}

} // verus!
