//! The grid of settled cells.

use vstd::prelude::*;
use crate::common::{AppState, GameState};
use crate::piece::{ActivePiece, PieceType, cells_of};
use crate::stats::{Lines, Score, apply_clear, line_score, MAX_LINES_PER_LOCK};

verus! {

/// Number of columns of the board.
pub const COL_COUNT: u8 = 10;

/// Number of visible rows of the board.
pub const ROW_COUNT: u8 = 20;

/// A settled cell in this row or above ends the game.
pub const OVERFLOW_ROW: i32 = 19;

/// One cell of the grid: `x` counts columns from the left edge, `y` counts
/// rows upward from the floor.
#[derive(Clone, Copy, Debug, PartialEq, Eq, Structural)]
pub struct Block {
    pub x: i32,
    pub y: i32,
}

impl Block {
    /// The cell as a pair of mathematical integers.
    pub open spec fn pos(self) -> (int, int) {
        (self.x as int, self.y as int)
    }

    /// The cell lies inside the walls and above the floor.
    pub open spec fn in_bounds(self) -> bool {
        0 <= self.x < 10 && 0 <= self.y
    }
}

impl From<[i32; 2]> for Block {
    fn from(pair: [i32; 2]) -> (block: Block) {
        Block { x: pair[0], y: pair[1] }
    }
}

impl vstd::std_specs::convert::FromSpecImpl<[i32; 2]> for Block {
    open spec fn obeys_from_spec() -> bool {
        true
    }

    open spec fn from_spec(pair: [i32; 2]) -> Block {
        Block { x: pair[0], y: pair[1] }
    }
}

/// The rows of a board from the floor up, each ten cells wide; a cell holds
/// the type of the piece that settled there.
pub type Grid = Seq<Seq<Option<PieceType>>>;

/// What the grid holds at column `x` of row `y`; nothing outside the grid.
pub open spec fn grid_cell(grid: Grid, x: int, y: int) -> Option<PieceType> {
    if 0 <= y < grid.len() && 0 <= x < grid[y].len() {
        grid[y][x]
    } else {
        None
    }
}

/// Every row is ten cells wide, and row numbers fit the coordinate type.
pub open spec fn grid_wf(grid: Grid) -> bool {
    &&& grid.len() <= 0x8000_0000
    &&& forall|y: int| 0 <= y < grid.len() ==> (#[trigger] grid[y]).len() == 10
}

/// The cell is inside the walls, above the floor, and not settled.
pub open spec fn cell_free(grid: Grid, cell: (int, int)) -> bool {
    &&& 0 <= cell.0 < 10
    &&& 0 <= cell.1 <= i32::MAX
    &&& grid_cell(grid, cell.0, cell.1) is None
}

/// Every cell is free.
pub open spec fn fits(grid: Grid, cells: Seq<(int, int)>) -> bool {
    forall|i: int| 0 <= i < cells.len() ==> cell_free(grid, #[trigger] cells[i])
}

/// The cells moved by `dx` columns and `dy` rows.
pub open spec fn translated(cells: Seq<(int, int)>, dx: int, dy: int) -> Seq<(int, int)> {
    Seq::new(cells.len(), |i: int| (cells[i].0 + dx, cells[i].1 + dy))
}

/// All ten columns of row `y` are occupied.
pub open spec fn row_full(grid: Grid, y: int) -> bool {
    &&& 0 <= y < grid.len()
    &&& forall|x: int| 0 <= x < 10 ==> (#[trigger] grid_cell(grid, x, y)) is Some
}

/// The highest row that the cells reach, and -1 where there are no cells.
pub open spec fn top_row(cells: Seq<(int, int)>) -> int
    decreases cells.len(),
{
    if cells.len() == 0 {
        -1
    } else {
        let below = top_row(cells.drop_last());
        if cells.last().1 > below { cells.last().1 } else { below }
    }
}

/// The grid after a piece of type `tag` has settled on `cells`: the grid
/// grows to hold the highest of them, each of them holds `tag`, and every
/// other cell is as before.
pub open spec fn settled(grid: Grid, cells: Seq<(int, int)>, tag: PieceType) -> Grid {
    let height = if top_row(cells) + 1 > grid.len() { top_row(cells) + 1 } else { grid.len() as int };
    Seq::new(
        height as nat,
        |y: int| Seq::new(
            10,
            |x: int| if cells.contains((x, y)) { Some(tag) } else { grid_cell(grid, x, y) },
        ),
    )
}

/// The number of full rows among the lowest `n` rows.
pub open spec fn full_rows_below(grid: Grid, n: int) -> nat
    decreases n,
{
    if n <= 0 {
        0
    } else {
        full_rows_below(grid, n - 1) + if row_full(grid, n - 1) { 1nat } else { 0nat }
    }
}

/// The number of full rows.
pub open spec fn full_row_count(grid: Grid) -> nat {
    full_rows_below(grid, grid.len() as int)
}

/// The full rows.
pub open spec fn full_row_set(grid: Grid) -> Set<int> {
    Set::new(|y: int| row_full(grid, y))
}

/// The row numbers that the list names.
pub open spec fn row_set(rows: Seq<i32>) -> Set<int> {
    Set::new(|y: int| exists|i: int| 0 <= i < rows.len() && rows[i] == y)
}

/// The number of cleared rows that lie below row `y`.
pub open spec fn cleared_below(cleared: Set<int>, y: int) -> nat
    decreases y,
{
    if y <= 0 {
        0
    } else {
        cleared_below(cleared, y - 1) + if cleared.contains(y - 1) { 1nat } else { 0nat }
    }
}

/// The rows that are not cleared, in their order from the floor up.
pub open spec fn remaining_rows(grid: Grid, cleared: Set<int>) -> Grid
    decreases grid.len(),
{
    if grid.len() == 0 {
        grid
    } else {
        let below = remaining_rows(grid.drop_last(), cleared);
        if cleared.contains(grid.len() - 1) {
            below
        } else {
            below.push(grid.last())
        }
    }
}

/// A settled cell lies in the overflow row or above it.
pub open spec fn overflowing(grid: Grid) -> bool {
    exists|x: int, y: int| y >= OVERFLOW_ROW && (#[trigger] grid_cell(grid, x, y)) is Some
}

/// Collapse drops each cell by the number of cleared rows below it: a row
/// that is not cleared comes to lie that many rows lower, and the grid
/// loses as many rows as were cleared.
pub proof fn collapse_drops_rows(grid: Grid, cleared: Set<int>, y: int)
    requires
        0 <= y < grid.len(),
        !cleared.contains(y),
    ensures
        remaining_rows(grid, cleared).len() == grid.len() - cleared_below(cleared, grid.len() as int),
        0 <= y - cleared_below(cleared, y) < remaining_rows(grid, cleared).len(),
        remaining_rows(grid, cleared)[y - cleared_below(cleared, y)] == grid[y],
    decreases grid.len(),
{
    collapse_height(grid, cleared);
    collapse_height(grid.drop_last(), cleared);
    cleared_between(cleared, 0, y);
    let last = grid.len() - 1;
    if y < last {
        collapse_drops_rows(grid.drop_last(), cleared, y);
        cleared_between(cleared, y, last);
    }
}

/// Between two rows lie at most as many cleared rows as rows, and one less
/// above a row that is not cleared.
pub proof fn cleared_between(cleared: Set<int>, low: int, high: int)
    requires
        0 <= low <= high,
    ensures
        cleared_below(cleared, low) <= cleared_below(cleared, high),
        cleared_below(cleared, high) - cleared_below(cleared, low) <= high - low,
        low < high && !cleared.contains(low) ==> cleared_below(cleared, high) - cleared_below(
            cleared,
            low,
        ) < high - low,
    decreases high - low,
{
    if low < high {
        cleared_between(cleared, low, high - 1);
    }
}

/// The grid loses as many rows as were cleared.
pub proof fn collapse_height(grid: Grid, cleared: Set<int>)
    ensures
        remaining_rows(grid, cleared).len() == grid.len() - cleared_below(cleared, grid.len() as int),
        cleared_below(cleared, grid.len() as int) <= grid.len(),
    decreases grid.len(),
{
    if grid.len() > 0 {
        collapse_height(grid.drop_last(), cleared);
    }
}

/// The rows with the given cells are the remaining rows: a grid that has
/// each row that is not cleared at its place after the drop, and no other
/// row, is the collapsed grid.
proof fn collapse_is_unique(grid: Grid, cleared: Set<int>, rows: Grid)
    requires
        rows.len() == grid.len() - cleared_below(cleared, grid.len() as int),
        forall|y: int|
            0 <= y < grid.len() && !cleared.contains(y) ==> rows[y - cleared_below(cleared, y)]
                == #[trigger] grid[y],
    ensures
        rows == remaining_rows(grid, cleared),
    decreases grid.len(),
{
    if grid.len() == 0 {
        assert(rows =~= grid);
    } else {
        let last = grid.len() - 1;
        let below = grid.drop_last();
        collapse_height(below, cleared);
        assert(cleared_below(cleared, grid.len() as int) == cleared_below(cleared, last) + if cleared.contains(
            last,
        ) { 1nat } else { 0nat });
        if cleared.contains(last) {
            assert forall|y: int| 0 <= y < below.len() && !cleared.contains(y) implies rows[y
                - cleared_below(cleared, y)] == #[trigger] below[y] by {
                assert(below[y] == grid[y]);
            }
            collapse_is_unique(below, cleared, rows);
        } else {
            let lower = rows.drop_last();
            assert forall|y: int| 0 <= y < below.len() && !cleared.contains(y) implies lower[y
                - cleared_below(cleared, y)] == #[trigger] below[y] by {
                assert(below[y] == grid[y]);
                cleared_between(cleared, y, last);
                cleared_between(cleared, 0, y);
                assert(lower.len() == last - cleared_below(cleared, last));
                assert(lower[y - cleared_below(cleared, y)] == rows[y - cleared_below(cleared, y)]);
            }
            collapse_is_unique(below, cleared, lower);
            assert(rows.last() == grid[last]);
            assert(rows =~= lower.push(grid.last()));
        }
    }
}

/// Every row that remains after a collapse is a row of the grid that was
/// not cleared, and lies lower by the number of cleared rows below it.
pub proof fn remaining_row_source(grid: Grid, cleared: Set<int>, j: int) -> (y: int)
    requires
        0 <= j < remaining_rows(grid, cleared).len(),
    ensures
        0 <= y < grid.len(),
        !cleared.contains(y),
        j == y - cleared_below(cleared, y),
        remaining_rows(grid, cleared)[j] == grid[y],
    decreases grid.len(),
{
    let last = grid.len() - 1;
    let below = remaining_rows(grid.drop_last(), cleared);
    collapse_height(grid.drop_last(), cleared);
    if !cleared.contains(last) && j == below.len() {
        last
    } else {
        remaining_row_source(grid.drop_last(), cleared, j)
    }
}

/// A cell of a row that is not cleared lies, after the collapse, lower by
/// the number of cleared rows below it: by two above two cleared rows, by
/// one between them, and not at all below them.
pub proof fn collapse_moves_cells(grid: Grid, cleared: Set<int>, x: int, y: int)
    requires
        !cleared.contains(y),
    ensures
        grid_cell(remaining_rows(grid, cleared), x, y - cleared_below(cleared, y)) == grid_cell(
            grid,
            x,
            y,
        ),
{
    let after = remaining_rows(grid, cleared);
    collapse_height(grid, cleared);
    if 0 <= y < grid.len() {
        collapse_drops_rows(grid, cleared, y);
    } else if y >= grid.len() {
        cleared_between(cleared, grid.len() as int, y);
    }
}

/// No full row is left once the full rows are cleared.
pub proof fn collapse_leaves_no_full_row(grid: Grid)
    ensures
        full_row_count(remaining_rows(grid, full_row_set(grid))) == 0,
{
    let after = remaining_rows(grid, full_row_set(grid));
    assert forall|j: int| 0 <= j < after.len() implies !row_full(after, j) by {
        let y = remaining_row_source(grid, full_row_set(grid), j);
        assert(!row_full(grid, y));
        let x = choose|x: int| 0 <= x < 10 && !(#[trigger] grid_cell(grid, x, y) is Some);
        assert(grid_cell(after, x, j) == grid_cell(grid, x, y));
    }
    no_full_rows_below(after, after.len() as int);
}

/// Rows of which none is full count no full row.
pub proof fn no_full_rows_below(grid: Grid, n: int)
    requires
        forall|j: int| 0 <= j < n ==> !row_full(grid, j),
    ensures
        full_rows_below(grid, n) == 0,
    decreases n,
{
    if n > 0 {
        no_full_rows_below(grid, n - 1);
    }
}

/// The settled cells of a game.
pub struct Board {
    rows: Vec<[Option<PieceType>; 10]>,
}

impl View for Board {
    type V = Grid;

    closed spec fn view(&self) -> Grid {
        Seq::new(self.rows@.len(), |y: int| self.rows@[y]@)
    }
}

impl Board {
    /// The invariant of a board.
    pub open spec fn wf(&self) -> bool {
        grid_wf(self@)
    }

    /// What has settled at column `x` of row `y`.
    pub open spec fn cell(&self, x: int, y: int) -> Option<PieceType> {
        grid_cell(self@, x, y)
    }

    /// Whether the board keeps its invariant.
    pub fn is_wf(&self) -> (ok: bool)
        ensures
            ok == self.wf(),
    {
        self.rows.len() <= 0x8000_0000
    }

    /// An empty board.
    pub fn new() -> (board: Board)
        ensures
            board.wf(),
            board@ == Seq::<Seq<Option<PieceType>>>::empty(),
    {
        let board = Board { rows: Vec::new() };
        assert(board@ =~= Seq::<Seq<Option<PieceType>>>::empty());
        board
    }

    /// The type of the piece that settled at `(x, y)`, if any.
    pub fn get(&self, x: i32, y: i32) -> (tag: Option<PieceType>)
        ensures
            tag == self.cell(x as int, y as int),
    {
        if 0 <= x && x < 10 && 0 <= y && (y as usize) < self.rows.len() {
            let row = &self.rows[y as usize];
            row[x as usize]
        } else {
            None
        }
    }

    /// Whether a settled cell lies at `(x, y)`.
    pub fn occupied(&self, x: i32, y: i32) -> (hit: bool)
        ensures
            hit == self.cell(x as int, y as int) is Some,
    {
        self.get(x, y).is_some()
    }

    /// Whether `(x, y)` is on the board and not settled.
    pub fn is_free(&self, x: i64, y: i64) -> (free: bool)
        ensures
            free == cell_free(self@, (x as int, y as int)),
    {
        0 <= x && x < 10 && 0 <= y && y <= i32::MAX as i64 && !self.occupied(x as i32, y as i32)
    }

    /// The settled cells with their piece types, row by row from the floor
    /// up and from left to right within a row.
    pub fn cells(&self) -> (cells: Vec<(Block, PieceType)>)
        requires
            self.wf(),
        ensures
            forall|i: int|
                0 <= i < cells@.len() ==> self.cell(
                    (#[trigger] cells@[i]).0.x as int,
                    cells@[i].0.y as int,
                ) == Some(cells@[i].1),
            forall|x: int, y: int|
                (#[trigger] self.cell(x, y)) is Some ==> exists|i: int|
                    0 <= i < cells@.len() && (#[trigger] cells@[i]).0.pos() == (x, y),
            forall|i: int, j: int|
                0 <= i < j < cells@.len() ==> cells@[i].0.y < cells@[j].0.y || (cells@[i].0.y
                    == cells@[j].0.y && cells@[i].0.x < cells@[j].0.x),
    {
        let mut cells: Vec<(Block, PieceType)> = Vec::new();
        let mut y: usize = 0;
        while y < self.rows.len()
            invariant
                self.wf(),
                y <= self@.len(),
                forall|i: int|
                    0 <= i < cells@.len() ==> grid_cell(
                        self@,
                        (#[trigger] cells@[i]).0.x as int,
                        cells@[i].0.y as int,
                    ) == Some(cells@[i].1),
                forall|i: int| 0 <= i < cells@.len() ==> (#[trigger] cells@[i]).0.y < y,
                forall|x: int, r: int|
                    r < y && (#[trigger] grid_cell(self@, x, r)) is Some ==> exists|i: int|
                        0 <= i < cells@.len() && (#[trigger] cells@[i]).0.pos() == (x, r),
                forall|i: int, j: int|
                    0 <= i < j < cells@.len() ==> cells@[i].0.y < cells@[j].0.y || (cells@[i].0.y
                        == cells@[j].0.y && cells@[i].0.x < cells@[j].0.x),
            decreases self@.len() - y,
        {
            let row = &self.rows[y];
            let mut x: usize = 0;
            while x < 10
                invariant
                    self.wf(),
                    y < self@.len(),
                    x <= 10,
                    *row == self.rows@[y as int],
                    forall|i: int|
                        0 <= i < cells@.len() ==> grid_cell(
                            self@,
                            (#[trigger] cells@[i]).0.x as int,
                            cells@[i].0.y as int,
                        ) == Some(cells@[i].1),
                    forall|i: int|
                        0 <= i < cells@.len() ==> (#[trigger] cells@[i]).0.y < y || (cells@[i].0.y
                            == y && cells@[i].0.x < x),
                    forall|c: int, r: int|
                        (r < y || (r == y && c < x)) && (#[trigger] grid_cell(self@, c, r))
                            is Some ==> exists|i: int|
                            0 <= i < cells@.len() && (#[trigger] cells@[i]).0.pos() == (c, r),
                    forall|i: int, j: int|
                        0 <= i < j < cells@.len() ==> cells@[i].0.y < cells@[j].0.y || (
                        cells@[i].0.y == cells@[j].0.y && cells@[i].0.x < cells@[j].0.x),
                decreases 10 - x,
            {
                let ghost before = cells@;
                match row[x] {
                    Some(tag) => {
                        cells.push((Block { x: x as i32, y: y as i32 }, tag));
                        proof {
                            let last = before.len() as int;
                            assert(cells@[last].0.pos() == (x as int, y as int));
                            assert forall|c: int, r: int|
                                (r < y || (r == y && c < x + 1)) && (#[trigger] grid_cell(
                                    self@,
                                    c,
                                    r,
                                )) is Some implies exists|i: int|
                                0 <= i < cells@.len() && (#[trigger] cells@[i]).0.pos() == (c, r) by {
                                if r == y && c == x {
                                    assert(cells@[last].0.pos() == (c, r));
                                } else {
                                    let i = choose|i: int|
                                        0 <= i < before.len() && (#[trigger] before[i]).0.pos() == (
                                            c,
                                            r,
                                        );
                                    assert(cells@[i].0.pos() == (c, r));
                                }
                            }
                        }
                    },
                    None => {},
                }
                x += 1;
            }
            y += 1;
        }
        cells
    }

    /// Removes every settled cell.
    pub fn clear(&mut self)
        ensures
            final(self).wf(),
            final(self)@ == Seq::<Seq<Option<PieceType>>>::empty(),
    {
        self.rows.clear();
        assert(self@ =~= Seq::<Seq<Option<PieceType>>>::empty());
    }

    /// Writes the four cells of a locked piece into the grid.
    pub fn settle(&mut self, blocks: &[Block; 4], piece_type: PieceType)
        requires
            old(self).wf(),
            forall|i: int| 0 <= i < 4 ==> (#[trigger] blocks[i]).in_bounds(),
        ensures
            final(self).wf(),
            final(self)@ == settled(old(self)@, cells_of(blocks@), piece_type),
    {
        let ghost cells = cells_of(blocks@);
        let ghost target = settled(old(self)@, cells, piece_type);
        proof {
            reveal_with_fuel(top_row, 5);
            assert(cells.drop_last().drop_last().drop_last().drop_last().len() == 0);
        }
        let mut i: usize = 0;
        while i < 4
            invariant
                i <= 4,
                self.wf(),
                cells == cells_of(blocks@),
                forall|j: int| 0 <= j < 4 ==> (#[trigger] blocks[j]).in_bounds(),
                self@.len() == if top_row(cells.take(i as int)) + 1 > old(self)@.len() {
                    top_row(cells.take(i as int)) + 1
                } else {
                    old(self)@.len() as int
                },
                forall|x: int, y: int|
                    #[trigger] grid_cell(self@, x, y) == if cells.take(i as int).contains((x, y)) {
                        Some(piece_type)
                    } else {
                        grid_cell(old(self)@, x, y)
                    },
            decreases 4 - i,
        {
            let block = blocks[i];
            let ghost before = self@;
            let ghost done = cells.take(i as int);
            let ghost next = cells.take(i + 1);
            proof {
                assert(next.drop_last() =~= done);
                assert(next.last() == cells[i as int]);
                assert(cells[i as int] == (block.x as int, block.y as int));
            }
            while self.rows.len() <= block.y as usize
                invariant
                    self.wf(),
                    block.in_bounds(),
                    before.len() <= self@.len(),
                    self@.len() > before.len() ==> self@.len() <= block.y + 1,
                    forall|x: int, y: int| #[trigger] grid_cell(self@, x, y) == grid_cell(before, x, y),
                decreases block.y + 1 - self.rows.len(),
            {
                let ghost prior = self@;
                self.rows.push([None;10]);
                proof {
                    assert(self@.len() == prior.len() + 1);
                    assert forall|y: int| 0 <= y < self@.len() implies (#[trigger] self@[y]).len()
                        == 10 by {
                        if y < prior.len() {
                            assert(self@[y] == prior[y]);
                        }
                    }
                    assert forall|x: int, y: int| #[trigger]
                        grid_cell(self@, x, y) == grid_cell(before, x, y) by {
                        if 0 <= y < prior.len() {
                            assert(self@[y] == prior[y]);
                        }
                        assert(grid_cell(prior, x, y) == grid_cell(before, x, y));
                    }
                }
            }
            let ghost grown = self@;
            let mut row = self.rows[block.y as usize];
            row[block.x as usize] = Some(piece_type);
            self.rows[block.y as usize] = row;
            proof {
                assert(self@.len() == grown.len());
                assert forall|y: int| 0 <= y < self@.len() implies (#[trigger] self@[y]).len()
                    == 10 by {
                    if y != block.y {
                        assert(self@[y] == grown[y]);
                    } else {
                        assert(grown[y].len() == 10);
                    }
                }
                assert forall|x: int, y: int| #[trigger]
                    grid_cell(self@, x, y) == if next.contains((x, y)) {
                        Some(piece_type)
                    } else {
                        grid_cell(old(self)@, x, y)
                    } by {
                    assert(grid_cell(grown, x, y) == grid_cell(before, x, y));
                    if (x, y) == (block.x as int, block.y as int) {
                        assert(next[i as int] == (x, y));
                    } else {
                        if 0 <= y < self@.len() && y != block.y {
                            assert(self@[y] == grown[y]);
                        }
                        if done.contains((x, y)) {
                            let j = choose|j: int| 0 <= j < done.len() && done[j] == (x, y);
                            assert(next[j] == (x, y));
                        }
                        if next.contains((x, y)) {
                            let j = choose|j: int| 0 <= j < next.len() && next[j] == (x, y);
                            assert(done[j] == (x, y));
                        }
                    }
                }
            }
            i += 1;
        }
        proof {
            assert(cells.take(4) =~= cells);
            assert forall|y: int| 0 <= y < target.len() implies self@[y] =~= target[y] by {
                assert forall|x: int| 0 <= x < 10 implies self@[y][x] == target[y][x] by {
                    assert(grid_cell(self@, x, y) == self@[y][x]);
                }
            }
            assert(self@ =~= target);
        }
    }

    fn row_is_full(&self, y: usize) -> (full: bool)
        requires
            self.wf(),
            y < self@.len(),
        ensures
            full == row_full(self@, y as int),
    {
        let row = &self.rows[y];
        let mut x: usize = 0;
        while x < 10
            invariant
                x <= 10,
                self.wf(),
                y < self@.len(),
                *row == self.rows@[y as int],
                forall|k: int| 0 <= k < x ==> (#[trigger] grid_cell(self@, k, y as int)) is Some,
            decreases 10 - x,
        {
            if row[x].is_none() {
                assert(!(grid_cell(self@, x as int, y as int) is Some));
                return false;
            }
            x += 1;
        }
        true
    }

    fn row_is_empty(&self, y: usize) -> (empty: bool)
        requires
            self.wf(),
            y < self@.len(),
        ensures
            empty == forall|x: int| (#[trigger] grid_cell(self@, x, y as int)) is None,
    {
        let row = &self.rows[y];
        let mut x: usize = 0;
        while x < 10
            invariant
                x <= 10,
                self.wf(),
                y < self@.len(),
                *row == self.rows@[y as int],
                forall|k: int| 0 <= k < x ==> (#[trigger] grid_cell(self@, k, y as int)) is None,
            decreases 10 - x,
        {
            if row[x].is_some() {
                assert(!(grid_cell(self@, x as int, y as int) is None));
                return false;
            }
            x += 1;
        }
        true
    }

    /// The full rows, from the floor up.
    pub fn full_rows(&self) -> (rows: Vec<i32>)
        requires
            self.wf(),
        ensures
            rows@.len() == full_row_count(self@),
            forall|i: int, j: int| 0 <= i < j < rows@.len() ==> rows@[i] < rows@[j],
            row_set(rows@) == full_row_set(self@),
    {
        let mut rows: Vec<i32> = Vec::new();
        let mut y: usize = 0;
        while y < self.rows.len()
            invariant
                self.wf(),
                y <= self@.len(),
                rows@.len() == full_rows_below(self@, y as int),
                forall|i: int| 0 <= i < rows@.len() ==> 0 <= #[trigger] rows@[i] < y,
                forall|i: int, j: int| 0 <= i < j < rows@.len() ==> rows@[i] < rows@[j],
                forall|i: int| 0 <= i < rows@.len() ==> row_full(self@, #[trigger] rows@[i] as int),
                forall|r: int|
                    0 <= r < y && row_full(self@, r) ==> exists|i: int|
                        0 <= i < rows@.len() && #[trigger] rows@[i] == r,
            decreases self@.len() - y,
        {
            if self.row_is_full(y) {
                let ghost before = rows@;
                rows.push(y as i32);
                proof {
                    assert forall|r: int| 0 <= r < y + 1 && row_full(self@, r) implies exists|i: int|
                        0 <= i < rows@.len() && #[trigger] rows@[i] == r by {
                        if r < y {
                            let i = choose|i: int| 0 <= i < before.len() && #[trigger] before[i] == r;
                            assert(rows@[i] == r);
                        } else {
                            assert(rows@[before.len() as int] == r);
                        }
                    }
                }
            }
            y += 1;
        }
        assert(row_set(rows@) =~= full_row_set(self@));
        rows
    }

    /// Removes the given rows and lets the rows above them drop: each
    /// remaining cell ends lower by the number of removed rows below it.
    /// The rows are taken out from the highest to the lowest; a row number
    /// that the board does not have names nothing.
    pub fn clear_and_collapse(&mut self, rows: &Vec<i32>)
        requires
            old(self).wf(),
        ensures
            final(self).wf(),
            final(self)@ == remaining_rows(old(self)@, row_set(rows@)),
    {
        let ghost grid = self@;
        let ghost cleared = row_set(rows@);
        let ghost n = grid.len() as int;
        let mut y: usize = self.rows.len();
        while y > 0
            invariant
                grid == old(self)@,
                grid_wf(grid),
                cleared == row_set(rows@),
                n == grid.len(),
                self.wf(),
                y <= n,
                self@.len() == n - (cleared_below(cleared, n) - cleared_below(cleared, y as int)),
                forall|j: int| 0 <= j < y ==> #[trigger] self@[j] == grid[j],
                forall|j: int|
                    y <= j < n && !cleared.contains(j) ==> self@[j - (cleared_below(cleared, j)
                        - cleared_below(cleared, y as int))] == #[trigger] grid[j],
            decreases y,
        {
            y -= 1;
            let ghost before = self@;
            proof {
                cleared_between(cleared, y as int, n);
                assert(cleared_below(cleared, y + 1) == cleared_below(cleared, y as int) + if cleared.contains(
                    y as int,
                ) { 1nat } else { 0nat });
            }
            if names_row(rows, y) {
                self.rows.remove(y);
                proof {
                    assert(self@ =~= before.remove(y as int));
                    assert forall|j: int| y <= j < n && !cleared.contains(j) implies self@[j - (
                    cleared_below(cleared, j) - cleared_below(cleared, y as int))] == #[trigger] grid[j] by {
                        assert(cleared.contains(y as int));
                        cleared_between(cleared, y + 1, j);
                        cleared_between(cleared, j, n);
                        let from = j - (cleared_below(cleared, j) - cleared_below(cleared, y + 1));
                        assert(before[from] == grid[j]);
                        assert(y + 1 <= from < before.len());
                        assert(self@[from - 1] == before[from]);
                    }
                }
            } else {
                proof {
                    assert forall|j: int| y <= j < n && !cleared.contains(j) implies self@[j - (
                    cleared_below(cleared, j) - cleared_below(cleared, y as int))] == #[trigger] grid[j] by {
                        if j > y {
                            cleared_between(cleared, y + 1, j);
                        }
                    }
                }
            }
        }
        proof {
            collapse_is_unique(grid, cleared, self@);
        }
    }

    /// Whether a settled cell has reached the overflow row.
    pub fn is_overflowing(&self) -> (over: bool)
        requires
            self.wf(),
        ensures
            over == overflowing(self@),
    {
        let mut y: usize = OVERFLOW_ROW as usize;
        while y < self.rows.len()
            invariant
                self.wf(),
                OVERFLOW_ROW <= y,
                forall|x: int, r: int| OVERFLOW_ROW <= r < y ==> (#[trigger] grid_cell(self@, x, r)) is None,
            decreases self@.len() - y,
        {
            if !self.row_is_empty(y) {
                let ghost x = choose|x: int| !((#[trigger] grid_cell(self@, x, y as int)) is None);
                assert(grid_cell(self@, x, y as int) is Some);
                return true;
            }
            y += 1;
        }
        false
    }
}

/// Whether the list names row `y`.
fn names_row(rows: &Vec<i32>, y: usize) -> (named: bool)
    requires
        y < 0x8000_0000,
    ensures
        named == row_set(rows@).contains(y as int),
{
    let mut i: usize = 0;
    while i < rows.len()
        invariant
            i <= rows@.len(),
            y < 0x8000_0000,
            forall|k: int| 0 <= k < i ==> rows@[k] != y,
        decreases rows@.len() - i,
    {
        if rows[i] == y as i32 {
            return true;
        }
        i += 1;
    }
    false
}

/// Clears the full rows, lets the rows above them drop, and counts the
/// lines and their points. Returns the number of rows cleared.
pub fn check_full_line(board: &mut Board, score: &mut Score, lines: &mut Lines) -> (count: u32)
    requires
        old(board).wf(),
        full_row_count(old(board)@) <= MAX_LINES_PER_LOCK,
        old(score).0 + line_score(full_row_count(old(board)@) as int) <= u32::MAX,
        old(lines).0 + full_row_count(old(board)@) <= u32::MAX,
    ensures
        count == full_row_count(old(board)@),
        final(board).wf(),
        final(board)@ == remaining_rows(old(board)@, full_row_set(old(board)@)),
        final(score).0 == old(score).0 + line_score(count as int),
        final(lines).0 == old(lines).0 + count,
{
    let full_lines = board.full_rows();
    let count: u32 = full_lines.len() as u32;
    apply_clear(score, lines, count);
    board.clear_and_collapse(&full_lines);
    count
}

/// Removes every settled cell and the falling piece.
pub fn clear_game_board(board: &mut Board, piece: &mut Option<ActivePiece>)
    ensures
        final(board).wf(),
        final(board)@ == Seq::<Seq<Option<PieceType>>>::empty(),
        *final(piece) is None,
{
    board.clear();
    *piece = None;
}

/// Ends the game once the settled cells have reached the overflow row: the
/// states then become game over, out of play. Returns whether they have.
pub fn check_game_over(board: &Board, app_state: &mut AppState, game_state: &mut GameState) -> (over:
    bool)
    requires
        board.wf(),
    ensures
        over == overflowing(board@),
        (*final(app_state), *final(game_state)) == if over {
            (AppState::GameOver, GameState::GameQuited)
        } else {
            (*old(app_state), *old(game_state))
        },
{
    let over = board.is_overflowing();
    if over {
        *app_state = AppState::GameOver;
        *game_state = GameState::GameQuited;
    }
    over
}

} // verus!
