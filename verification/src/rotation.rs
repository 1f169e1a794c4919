//! Rotation of the falling piece: a quarter turn about a pivot that is fixed
//! for each shape, followed by a ladder of sideways kicks when the turned
//! piece does not fit.

use vstd::prelude::*;
use crate::board::{Block, Board, Grid, cell_free, fits, translated};
use crate::piece::{ActivePiece, Orientation, PieceType, cells_of, piece_shape, shape_of};

verus! {

/// The least of four numbers.
pub open spec fn min4(a: int, b: int, c: int, d: int) -> int {
    let ab = if a <= b { a } else { b };
    let cd = if c <= d { c } else { d };
    if ab <= cd { ab } else { cd }
}

/// The leftmost column that the four cells reach.
pub open spec fn min_x(cells: Seq<(int, int)>) -> int {
    min4(cells[0].0, cells[1].0, cells[2].0, cells[3].0)
}

/// The lowest row that the four cells reach.
pub open spec fn min_y(cells: Seq<(int, int)>) -> int {
    min4(cells[0].1, cells[1].1, cells[2].1, cells[3].1)
}

/// Where the pivot of a quarter turn lies, for each shape and rotation
/// state, measured from the lower left corner `(mx, my)` of the piece's
/// bounding box: the pair is `(px - py, px + py)` for a pivot at
/// `(mx + px, my + py)`. The pivot is a cell of the piece for I, S, T and Z
/// and a corner between cells for J and L, and it stays in place through
/// the four states. The O piece never turns, so its entry goes unused.
pub open spec fn pivot_offsets(piece_type: PieceType, orientation: Orientation) -> (int, int) {
    match piece_type {
        PieceType::I => match orientation {
            Orientation::Deg0 => (1, 1),
            Orientation::Deg90 => (-2, 2),
            Orientation::Deg180 => (2, 2),
            Orientation::Deg270 => (-1, 1),
        },
        PieceType::J => match orientation {
            Orientation::Deg0 => (0, 1),
            Orientation::Deg90 => (-1, 2),
            Orientation::Deg180 => (1, 2),
            Orientation::Deg270 => (0, 1),
        },
        PieceType::L => match orientation {
            Orientation::Deg0 => (1, 2),
            Orientation::Deg90 => (0, 1),
            Orientation::Deg180 => (0, 1),
            Orientation::Deg270 => (-1, 2),
        },
        PieceType::O => (0, 1),
        PieceType::S | PieceType::T | PieceType::Z => match orientation {
            Orientation::Deg0 => (1, 1),
            Orientation::Deg90 => (-1, 1),
            Orientation::Deg180 => (0, 2),
            Orientation::Deg270 => (0, 2),
        },
    }
}

/// The cells after a clockwise quarter turn, before any kick: a cell at
/// `(x, y)` goes to `(y + u, -x + v)`, where `u` and `v` place the pivot by
/// the bounding box of the four cells.
pub open spec fn nominal_rotation(
    piece_type: PieceType,
    orientation: Orientation,
    cells: Seq<(int, int)>,
) -> Seq<(int, int)> {
    let u = min_x(cells) - min_y(cells) + pivot_offsets(piece_type, orientation).0;
    let v = min_x(cells) + min_y(cells) + pivot_offsets(piece_type, orientation).1;
    Seq::new(4, |i: int| (cells[i].1 + u, -cells[i].0 + v))
}

/// Number of placements that a rotation tries.
pub const KICK_COUNT: usize = 5;

/// The sideways offset of the `k`-th placement from the nominal one. The
/// ladder moves the turned piece by -1, -1, +3 and +3 columns in turn, so
/// the placements lie 0, -1, -2, +1 and +4 columns from the nominal one.
pub open spec fn kick_offset(k: int) -> int {
    if k <= 0 {
        0
    } else if k == 1 {
        -1
    } else if k == 2 {
        -2
    } else if k == 3 {
        1
    } else {
        4
    }
}

/// The cells moved sideways by `dx` columns.
pub open spec fn kicked(cells: Seq<(int, int)>, dx: int) -> Seq<(int, int)> {
    translated(cells, dx, 0)
}

/// The first placement of the ladder that fits, if any does.
pub open spec fn first_fit(grid: Grid, cells: Seq<(int, int)>) -> Option<int> {
    if fits(grid, kicked(cells, kick_offset(0))) {
        Some(0)
    } else if fits(grid, kicked(cells, kick_offset(1))) {
        Some(1)
    } else if fits(grid, kicked(cells, kick_offset(2))) {
        Some(2)
    } else if fits(grid, kicked(cells, kick_offset(3))) {
        Some(3)
    } else if fits(grid, kicked(cells, kick_offset(4))) {
        Some(4)
    } else {
        None
    }
}

/// The cells that a rotation command leaves the piece on, or `None` when
/// the command changes nothing: the O piece never turns, and another piece
/// stays as it is when no placement of the ladder fits.
pub open spec fn rotation_of(
    piece_type: PieceType,
    orientation: Orientation,
    cells: Seq<(int, int)>,
    grid: Grid,
) -> Option<Seq<(int, int)>> {
    if piece_type == PieceType::O {
        None
    } else {
        let turned = nominal_rotation(piece_type, orientation, cells);
        match first_fit(grid, turned) {
            Some(k) => Some(kicked(turned, kick_offset(k))),
            None => None,
        }
    }
}

/// The rotation state and the cells of a piece after a rotation command.
pub open spec fn after_rotation(
    piece_type: PieceType,
    orientation: Orientation,
    cells: Seq<(int, int)>,
    grid: Grid,
) -> (Orientation, Seq<(int, int)>) {
    match rotation_of(piece_type, orientation, cells, grid) {
        Some(turned) => (orientation.turned(), turned),
        None => (orientation, cells),
    }
}

/// The cells of a shape in each rotation state, as the quarter turns lead
/// to them from the cells with which the shape enters play.
#[verifier::opaque]
pub open spec fn oriented_shape(piece_type: PieceType, orientation: Orientation) -> Seq<(int, int)> {
    let s0 = cells_of(shape_of(piece_type));
    let s1 = nominal_rotation(piece_type, Orientation::Deg0, s0);
    let s2 = nominal_rotation(piece_type, Orientation::Deg90, s1);
    let s3 = nominal_rotation(piece_type, Orientation::Deg180, s2);
    if piece_type == PieceType::O {
        s0
    } else {
        match orientation {
            Orientation::Deg0 => s0,
            Orientation::Deg90 => s1,
            Orientation::Deg180 => s2,
            Orientation::Deg270 => s3,
        }
    }
}

/// The four cells are those of the shape in this rotation state, somewhere
/// on the plane.
pub open spec fn has_shape(
    piece_type: PieceType,
    orientation: Orientation,
    cells: Seq<(int, int)>,
) -> bool {
    let shape = oriented_shape(piece_type, orientation);
    cells == translated(shape, cells[0].0 - shape[0].0, cells[0].1 - shape[0].1)
}

/// A quarter turn of a moved piece is the moved quarter turn of the piece.
pub proof fn turn_commutes_with_translation(
    piece_type: PieceType,
    orientation: Orientation,
    cells: Seq<(int, int)>,
    dx: int,
    dy: int,
)
    requires
        cells.len() == 4,
    ensures
        nominal_rotation(piece_type, orientation, translated(cells, dx, dy)) == translated(
            nominal_rotation(piece_type, orientation, cells),
            dx,
            dy,
        ),
{
    let moved = translated(cells, dx, dy);
    assert(min_x(moved) == min_x(cells) + dx);
    assert(min_y(moved) == min_y(cells) + dy);
    assert(nominal_rotation(piece_type, orientation, moved) =~= translated(
        nominal_rotation(piece_type, orientation, cells),
        dx,
        dy,
    ));
}

/// A quarter turn takes the cells of a shape in one rotation state to its
/// cells in the next; the fourth leads back to the first.
pub proof fn turn_steps_shape(piece_type: PieceType, orientation: Orientation)
    requires
        piece_type != PieceType::O,
    ensures
        oriented_shape(piece_type, orientation).len() == 4,
        nominal_rotation(piece_type, orientation, oriented_shape(piece_type, orientation))
            == oriented_shape(piece_type, orientation.turned()),
{
    reveal(oriented_shape);
    let s0 = cells_of(shape_of(piece_type));
    let s1 = nominal_rotation(piece_type, Orientation::Deg0, s0);
    let s2 = nominal_rotation(piece_type, Orientation::Deg90, s1);
    let s3 = nominal_rotation(piece_type, Orientation::Deg180, s2);
    let s4 = nominal_rotation(piece_type, Orientation::Deg270, s3);
    if orientation == Orientation::Deg270 {
        assert(s4 =~= s0);
    }
}

/// A quarter turn takes a piece of the right shape to the right shape of the
/// next rotation state, at the same distance from where it entered play.
pub proof fn turn_keeps_shape(
    piece_type: PieceType,
    orientation: Orientation,
    dx: int,
    dy: int,
)
    requires
        piece_type != PieceType::O,
    ensures
        nominal_rotation(
            piece_type,
            orientation,
            translated(oriented_shape(piece_type, orientation), dx, dy),
        ) == translated(oriented_shape(piece_type, orientation.turned()), dx, dy),
        has_shape(
            piece_type,
            orientation.turned(),
            translated(oriented_shape(piece_type, orientation.turned()), dx, dy),
        ),
{
    let shape = oriented_shape(piece_type, orientation);
    turn_steps_shape(piece_type, orientation);
    turn_steps_shape(piece_type, orientation.turned());
    turn_commutes_with_translation(piece_type, orientation, shape, dx, dy);
    let next = oriented_shape(piece_type, orientation.turned());
    let moved = translated(next, dx, dy);
    assert(moved =~= translated(next, moved[0].0 - next[0].0, moved[0].1 - next[0].1));
}

/// A rotation command turns a piece on the spot when the turned piece fits
/// where it lands.
pub proof fn free_turn(
    piece_type: PieceType,
    orientation: Orientation,
    cells: Seq<(int, int)>,
    grid: Grid,
)
    requires
        piece_type != PieceType::O,
        fits(grid, nominal_rotation(piece_type, orientation, cells)),
    ensures
        after_rotation(piece_type, orientation, cells, grid) == (
            orientation.turned(),
            nominal_rotation(piece_type, orientation, cells),
        ),
{
    let turned = nominal_rotation(piece_type, orientation, cells);
    assert(kicked(turned, 0) =~= turned);
}

/// Rotation closure: a piece that floats freely, so that each of four
/// quarter turns fits where it lands, is back on its cells and in its
/// rotation state after four rotation commands.
pub proof fn rotation_closure(
    piece_type: PieceType,
    orientation: Orientation,
    cells: Seq<(int, int)>,
    grid: Grid,
)
    requires
        has_shape(piece_type, orientation, cells),
        ({
            let c1 = nominal_rotation(piece_type, orientation, cells);
            let c2 = nominal_rotation(piece_type, orientation.turned(), c1);
            let c3 = nominal_rotation(piece_type, orientation.turned().turned(), c2);
            let c4 = nominal_rotation(piece_type, orientation.turned().turned().turned(), c3);
            fits(grid, c1) && fits(grid, c2) && fits(grid, c3) && fits(grid, c4)
        }),
    ensures
        ({
            let r1 = after_rotation(piece_type, orientation, cells, grid);
            let r2 = after_rotation(piece_type, r1.0, r1.1, grid);
            let r3 = after_rotation(piece_type, r2.0, r2.1, grid);
            let r4 = after_rotation(piece_type, r3.0, r3.1, grid);
            r4 == (orientation, cells)
        }),
{
    if piece_type != PieceType::O {
        let o1 = orientation.turned();
        let o2 = o1.turned();
        let o3 = o2.turned();
        let c1 = nominal_rotation(piece_type, orientation, cells);
        let c2 = nominal_rotation(piece_type, o1, c1);
        let c3 = nominal_rotation(piece_type, o2, c2);
        let c4 = nominal_rotation(piece_type, o3, c3);
        free_turn(piece_type, orientation, cells, grid);
        free_turn(piece_type, o1, c1, grid);
        free_turn(piece_type, o2, c2, grid);
        free_turn(piece_type, o3, c3, grid);
        four_turns_restore(piece_type, orientation, cells);
    }
}

/// Four quarter turns lead a piece of the right shape back to its cells.
proof fn four_turns_restore(piece_type: PieceType, orientation: Orientation, cells: Seq<(int, int)>)
    requires
        piece_type != PieceType::O,
        has_shape(piece_type, orientation, cells),
    ensures
        nominal_rotation(
            piece_type,
            orientation.turned().turned().turned(),
            nominal_rotation(
                piece_type,
                orientation.turned().turned(),
                nominal_rotation(
                    piece_type,
                    orientation.turned(),
                    nominal_rotation(piece_type, orientation, cells),
                ),
            ),
        ) == cells,
{
    let o1 = orientation.turned();
    let o2 = o1.turned();
    let o3 = o2.turned();
    let dx = cells[0].0 - oriented_shape(piece_type, orientation)[0].0;
    let dy = cells[0].1 - oriented_shape(piece_type, orientation)[0].1;
    turn_keeps_shape(piece_type, orientation, dx, dy);
    turn_keeps_shape(piece_type, o1, dx, dy);
    turn_keeps_shape(piece_type, o2, dx, dy);
    turn_keeps_shape(piece_type, o3, dx, dy);
    assert(o3.turned() == orientation);
}

/// Whether a piece on these cells would leave the board or overlap a
/// settled cell.
pub fn whether_colliding(blocks: &[Block; 4], board: &Board) -> (colliding: bool)
    ensures
        colliding == !fits(board@, cells_of(blocks@)),
{
    let mut i: usize = 0;
    while i < 4
        invariant
            i <= 4,
            forall|j: int| 0 <= j < i ==> cell_free(board@, #[trigger] cells_of(blocks@)[j]),
        decreases 4 - i,
    {
        let b = blocks[i];
        if b.x < 0 || b.x > 9 || b.y < 0 || board.occupied(b.x, b.y) {
            assert(!cell_free(board@, cells_of(blocks@)[i as int]));
            return true;
        }
        i += 1;
    }
    false
}

fn least_of(a: i64, b: i64, c: i64, d: i64) -> (least: i64)
    ensures
        least == min4(a as int, b as int, c as int, d as int),
{
    let ab: i64 = if a <= b { a } else { b };
    let cd: i64 = if c <= d { c } else { d };
    if ab <= cd { ab } else { cd }
}

fn pivot_of(piece_type: PieceType, orientation: Orientation) -> (offsets: (i64, i64))
    ensures
        (offsets.0 as int, offsets.1 as int) == pivot_offsets(piece_type, orientation),
{
    match piece_type {
        PieceType::I => match orientation {
            Orientation::Deg0 => (1, 1),
            Orientation::Deg90 => (-2, 2),
            Orientation::Deg180 => (2, 2),
            Orientation::Deg270 => (-1, 1),
        },
        PieceType::J => match orientation {
            Orientation::Deg0 => (0, 1),
            Orientation::Deg90 => (-1, 2),
            Orientation::Deg180 => (1, 2),
            Orientation::Deg270 => (0, 1),
        },
        PieceType::L => match orientation {
            Orientation::Deg0 => (1, 2),
            Orientation::Deg90 => (0, 1),
            Orientation::Deg180 => (0, 1),
            Orientation::Deg270 => (-1, 2),
        },
        PieceType::O => (0, 1),
        PieceType::S | PieceType::T | PieceType::Z => match orientation {
            Orientation::Deg0 => (1, 1),
            Orientation::Deg90 => (-1, 1),
            Orientation::Deg180 => (0, 2),
            Orientation::Deg270 => (0, 2),
        },
    }
}

/// The cells as pairs of mathematical integers.
pub open spec fn wide_cells(cells: Seq<(i64, i64)>) -> Seq<(int, int)> {
    Seq::new(cells.len(), |i: int| (cells[i].0 as int, cells[i].1 as int))
}

/// The cells after a clockwise quarter turn, before any kick.
fn quarter_turn(piece_type: PieceType, orientation: Orientation, cells: &[(i64, i64); 4]) -> (turned:
    [(i64, i64); 4])
    requires
        forall|i: int|
            0 <= i < 4 ==> -0x100_0000_0000 <= (#[trigger] cells[i]).0 <= 0x100_0000_0000
                && -0x100_0000_0000 <= cells[i].1 <= 0x100_0000_0000,
    ensures
        wide_cells(turned@) == nominal_rotation(piece_type, orientation, wide_cells(cells@)),
        forall|i: int|
            0 <= i < 4 ==> -0x1_0000_0000_0000 <= (#[trigger] turned[i]).0 <= 0x1_0000_0000_0000
                && -0x1_0000_0000_0000 <= turned[i].1 <= 0x1_0000_0000_0000,
{
    let mx: i64 = least_of(cells[0].0, cells[1].0, cells[2].0, cells[3].0);
    let my: i64 = least_of(cells[0].1, cells[1].1, cells[2].1, cells[3].1);
    let (du, dv) = pivot_of(piece_type, orientation);
    let u: i64 = mx - my + du;
    let v: i64 = mx + my + dv;
    let turned: [(i64, i64); 4] = [
        (cells[0].1 + u, v - cells[0].0),
        (cells[1].1 + u, v - cells[1].0),
        (cells[2].1 + u, v - cells[2].0),
        (cells[3].1 + u, v - cells[3].0),
    ];
    assert(wide_cells(turned@) =~= nominal_rotation(piece_type, orientation, wide_cells(cells@)));
    turned
}

/// The cells as wide integers.
fn widened(blocks: &[Block; 4]) -> (cells: [(i64, i64); 4])
    ensures
        wide_cells(cells@) == cells_of(blocks@),
{
    let cells: [(i64, i64); 4] = [
        (blocks[0].x as i64, blocks[0].y as i64),
        (blocks[1].x as i64, blocks[1].y as i64),
        (blocks[2].x as i64, blocks[2].y as i64),
        (blocks[3].x as i64, blocks[3].y as i64),
    ];
    assert(wide_cells(cells@) =~= cells_of(blocks@));
    cells
}

/// The cells of a shape in a rotation state.
fn shape_cells(piece_type: PieceType, orientation: Orientation) -> (cells: [(i64, i64); 4])
    ensures
        wide_cells(cells@) == oriented_shape(piece_type, orientation),
        forall|i: int|
            0 <= i < 4 ==> -0x1_0000_0000_0000 <= (#[trigger] cells[i]).0 <= 0x1_0000_0000_0000
                && -0x1_0000_0000_0000 <= cells[i].1 <= 0x1_0000_0000_0000,
{
    reveal(oriented_shape);
    let base = piece_shape(piece_type);
    let s0 = widened(&base);
    assert forall|i: int| 0 <= i < 4 implies -64 <= (#[trigger] s0[i]).0 <= 64 && -64 <= s0[i].1
        <= 64 by {
        assert((s0[i].0 as int, s0[i].1 as int) == wide_cells(s0@)[i]);
        assert(wide_cells(s0@)[i] == base@[i].pos());
    }
    if piece_type == PieceType::O {
        return s0;
    }
    match orientation {
        Orientation::Deg0 => s0,
        Orientation::Deg90 => quarter_turn(piece_type, Orientation::Deg0, &s0),
        Orientation::Deg180 => {
            let s1 = quarter_turn(piece_type, Orientation::Deg0, &s0);
            assert forall|i: int| 0 <= i < 4 implies -64 <= (#[trigger] s1[i]).0 <= 64 && -64
                <= s1[i].1 <= 64 by {
                assert((s1[i].0 as int, s1[i].1 as int) == wide_cells(s1@)[i]);
            }
            quarter_turn(piece_type, Orientation::Deg90, &s1)
        },
        Orientation::Deg270 => {
            let s1 = quarter_turn(piece_type, Orientation::Deg0, &s0);
            assert forall|i: int| 0 <= i < 4 implies -64 <= (#[trigger] s1[i]).0 <= 64 && -64
                <= s1[i].1 <= 64 by {
                assert((s1[i].0 as int, s1[i].1 as int) == wide_cells(s1@)[i]);
            }
            let s2 = quarter_turn(piece_type, Orientation::Deg90, &s1);
            assert forall|i: int| 0 <= i < 4 implies -64 <= (#[trigger] s2[i]).0 <= 64 && -64
                <= s2[i].1 <= 64 by {
                assert((s2[i].0 as int, s2[i].1 as int) == wide_cells(s2@)[i]);
            }
            quarter_turn(piece_type, Orientation::Deg180, &s2)
        },
    }
}

/// Whether the four cells are those of the shape of `piece_type` in the
/// given rotation state, somewhere on the plane.
pub fn is_in_shape(piece_type: PieceType, orientation: Orientation, blocks: &[Block; 4]) -> (ok: bool)
    ensures
        ok == has_shape(piece_type, orientation, cells_of(blocks@)),
{
    let shape = shape_cells(piece_type, orientation);
    let cells = widened(blocks);
    let ghost model = oriented_shape(piece_type, orientation);
    let ghost given = cells_of(blocks@);
    let ghost dx = given[0].0 - model[0].0;
    let ghost dy = given[0].1 - model[0].1;
    proof {
        assert(wide_cells(shape@).len() == 4);
        assert(wide_cells(cells@)[0] == given[0]);
        assert(wide_cells(shape@)[0] == model[0]);
    }
    let mut i: usize = 0;
    while i < 4
        invariant
            i <= 4,
            model == oriented_shape(piece_type, orientation),
            given == cells_of(blocks@),
            wide_cells(shape@) == model,
            wide_cells(cells@) == given,
            dx == given[0].0 - model[0].0,
            dy == given[0].1 - model[0].1,
            forall|j: int|
                0 <= j < 4 ==> -0x1_0000_0000_0000 <= (#[trigger] shape[j]).0 <= 0x1_0000_0000_0000
                    && -0x1_0000_0000_0000 <= shape[j].1 <= 0x1_0000_0000_0000,
            forall|j: int| 0 <= j < i ==> given[j] == (model[j].0 + dx, model[j].1 + dy),
        decreases 4 - i,
    {
        proof {
            assert(wide_cells(cells@)[i as int] == given[i as int]);
            assert(wide_cells(shape@)[i as int] == model[i as int]);
            assert(wide_cells(cells@)[0] == given[0]);
            assert(wide_cells(shape@)[0] == model[0]);
        }
        if cells[i].0 - cells[0].0 != shape[i].0 - shape[0].0 || cells[i].1 - cells[0].1 != shape[i].1
            - shape[0].1 {
            assert(translated(model, dx, dy)[i as int] != given[i as int]);
            return false;
        }
        i += 1;
    }
    assert(given =~= translated(model, dx, dy));
    true
}

/// One cell of a placement, or `None` when it is off the board.
fn narrow(cell: (i64, i64), dx: i64) -> (block: Option<Block>)
    requires
        -0x1_0000_0000_0000 <= cell.0 <= 0x1_0000_0000_0000,
        -16 <= dx <= 16,
    ensures
        match block {
            Some(b) => b.pos() == (cell.0 + dx, cell.1 as int) && b.in_bounds(),
            None => !(0 <= cell.0 + dx < 10 && 0 <= cell.1 <= i32::MAX),
        },
{
    let x: i64 = cell.0 + dx;
    if 0 <= x && x < 10 && 0 <= cell.1 && cell.1 <= i32::MAX as i64 {
        Some(Block { x: x as i32, y: cell.1 as i32 })
    } else {
        None
    }
}

/// The placement `dx` columns from `cells`, if it fits the board.
fn placement(cells: &[(i64, i64); 4], dx: i64, board: &Board) -> (placed: Option<[Block; 4]>)
    requires
        forall|i: int| 0 <= i < 4 ==> -0x1_0000_0000_0000 <= (#[trigger] cells[i]).0 <= 0x1_0000_0000_0000,
        -16 <= dx <= 16,
    ensures
        placed is Some == fits(board@, kicked(wide_cells(cells@), dx as int)),
        placed matches Some(blocks) ==> cells_of(blocks@) == kicked(wide_cells(cells@), dx as int),
{
    let ghost target = kicked(wide_cells(cells@), dx as int);
    let b0 = narrow(cells[0], dx);
    let b1 = narrow(cells[1], dx);
    let b2 = narrow(cells[2], dx);
    let b3 = narrow(cells[3], dx);
    match (b0, b1, b2, b3) {
        (Some(b0), Some(b1), Some(b2), Some(b3)) => {
            let blocks = [b0, b1, b2, b3];
            assert(cells_of(blocks@) =~= target);
            if whether_colliding(&blocks, board) {
                None
            } else {
                Some(blocks)
            }
        },
        _ => {
            assert(!fits(board@, target)) by {
                if b0 is None {
                    assert(!cell_free(board@, target[0]));
                } else if b1 is None {
                    assert(!cell_free(board@, target[1]));
                } else if b2 is None {
                    assert(!cell_free(board@, target[2]));
                } else {
                    assert(!cell_free(board@, target[3]));
                }
            }
            None
        },
    }
}

/// Turns the falling piece a quarter turn clockwise, if it can be placed.
///
/// The turned piece is tried where the turn leaves it and then at each
/// further offset of the kick ladder; the first placement that is on the
/// board and clear of settled cells is taken, and the piece moves on to its
/// next rotation state. If none fits, or the piece is an O, nothing changes.
/// Returns whether the piece turned.
pub fn rotate_piece(piece: &mut ActivePiece, board: &Board) -> (turned: bool)
    ensures
        final(piece).piece_type == old(piece).piece_type,
        final(piece).movable == old(piece).movable,
        turned == rotation_of(
            old(piece).piece_type,
            old(piece).orientation,
            cells_of(old(piece).blocks@),
            board@,
        ) is Some,
        match rotation_of(
            old(piece).piece_type,
            old(piece).orientation,
            cells_of(old(piece).blocks@),
            board@,
        ) {
            Some(cells) => {
                &&& cells_of(final(piece).blocks@) == cells
                &&& final(piece).orientation == old(piece).orientation.turned()
            },
            None => *final(piece) == *old(piece),
        },
{
    if piece.piece_type == PieceType::O {
        return false;
    }
    let ghost cells = cells_of(piece.blocks@);
    let wide = widened(&piece.blocks);
    proof {
        assert forall|i: int| 0 <= i < 4 implies -0x100_0000_0000 <= (#[trigger] wide[i]).0
            <= 0x100_0000_0000 && -0x100_0000_0000 <= wide[i].1 <= 0x100_0000_0000 by {
            assert(wide_cells(wide@)[i] == (wide[i].0 as int, wide[i].1 as int));
        }
    }
    let turned = quarter_turn(piece.piece_type, piece.orientation, &wide);
    let ghost nominal = nominal_rotation(piece.piece_type, piece.orientation, cells);
    let steps: [i64; 5] = [0, -1, -1, 3, 3];
    let mut dx: i64 = 0;
    let mut k: usize = 0;
    while k < KICK_COUNT
        invariant
            k <= KICK_COUNT,
            steps@ == seq![0i64, -1i64, -1i64, 3i64, 3i64],
            k < KICK_COUNT ==> dx + steps[k as int] == kick_offset(k as int),
            wide_cells(turned@) == nominal,
            forall|i: int| 0 <= i < 4 ==> -0x1_0000_0000_0000 <= (#[trigger] turned[i]).0 <= 0x1_0000_0000_0000,
            forall|j: int| 0 <= j < k ==> !fits(board@, kicked(nominal, kick_offset(j))),
            *piece == *old(piece),
            nominal == nominal_rotation(old(piece).piece_type, old(piece).orientation, cells_of(old(piece).blocks@)),
            old(piece).piece_type != PieceType::O,
        decreases KICK_COUNT - k,
    {
        dx = dx + steps[k];
        match placement(&turned, dx, board) {
            Some(blocks) => {
                piece.blocks = blocks;
                piece.orientation = piece.orientation.next();
                assert(first_fit(board@, nominal) == Some(k as int));
                return true;
            },
            None => {},
        }
        k += 1;
    }
    assert(first_fit(board@, nominal) is None);
    false
}

} // verus!
