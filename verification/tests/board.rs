use tetris::board::{
    check_full_line, check_game_over, clear_game_board, Block, Board, COL_COUNT, OVERFLOW_ROW,
    ROW_COUNT,
};
use tetris::common::{AppState, GameState};
use tetris::piece::{ActivePiece, Movable, Orientation, PieceType};
use tetris::stats::{apply_clear, points_for, reset_lines, reset_score, Lines, Score};

fn settle_one(board: &mut Board, x: i32, y: i32, tag: PieceType) {
    let b = Block { x, y };
    board.settle(&[b, b, b, b], tag);
}

fn fill_row(board: &mut Board, y: i32, tag: PieceType) {
    for x in 0..10 {
        settle_one(board, x, y, tag);
    }
}

fn positions(board: &Board) -> Vec<(i32, i32)> {
    board.cells().iter().map(|(b, _)| (b.x, b.y)).collect()
}

#[test]
fn board_is_ten_by_twenty() {
    assert_eq!(COL_COUNT, 10);
    assert_eq!(ROW_COUNT, 20);
    assert_eq!(OVERFLOW_ROW, 19);
}

#[test]
fn new_board_is_empty() {
    let board = Board::new();
    assert!(board.cells().is_empty());
    assert!(!board.occupied(0, 0));
    assert_eq!(board.get(3, 3), None);
    assert!(board.full_rows().is_empty());
    assert!(!board.is_overflowing());
}

#[test]
fn settle_writes_the_four_cells_with_their_type() {
    let mut board = Board::new();
    let piece = [
        Block { x: 3, y: 1 },
        Block { x: 3, y: 0 },
        Block { x: 4, y: 0 },
        Block { x: 5, y: 0 },
    ];
    board.settle(&piece, PieceType::J);
    assert_eq!(board.get(3, 1), Some(PieceType::J));
    assert_eq!(board.get(3, 0), Some(PieceType::J));
    assert_eq!(board.get(4, 0), Some(PieceType::J));
    assert_eq!(board.get(5, 0), Some(PieceType::J));
    assert_eq!(board.get(4, 1), None);
    assert_eq!(board.get(6, 0), None);
    assert_eq!(positions(&board), vec![(3, 0), (4, 0), (5, 0), (3, 1)]);
    // a second piece leaves the first where it is
    settle_one(&mut board, 9, 7, PieceType::T);
    assert_eq!(board.get(9, 7), Some(PieceType::T));
    assert_eq!(board.get(3, 1), Some(PieceType::J));
    assert_eq!(positions(&board), vec![(3, 0), (4, 0), (5, 0), (3, 1), (9, 7)]);
}

#[test]
fn nothing_is_occupied_outside_the_grid() {
    let mut board = Board::new();
    fill_row(&mut board, 0, PieceType::I);
    assert!(board.occupied(0, 0));
    assert!(board.occupied(9, 0));
    assert!(!board.occupied(-1, 0));
    assert!(!board.occupied(10, 0));
    assert!(!board.occupied(0, -1));
    assert!(!board.occupied(0, 1));
    assert!(!board.occupied(0, 1000));
}

#[test]
fn free_cells_are_on_the_board_and_not_settled() {
    let mut board = Board::new();
    settle_one(&mut board, 2, 2, PieceType::S);
    assert!(board.is_free(0, 0));
    assert!(board.is_free(9, 500));
    assert!(!board.is_free(2, 2));
    assert!(!board.is_free(-1, 0));
    assert!(!board.is_free(10, 0));
    assert!(!board.is_free(0, -1));
    assert!(!board.is_free(0, i32::MAX as i64 + 1));
}

#[test]
fn a_row_is_full_with_all_ten_columns() {
    let mut board = Board::new();
    for x in 0..9 {
        settle_one(&mut board, x, 2, PieceType::L);
    }
    assert!(board.full_rows().is_empty());
    settle_one(&mut board, 9, 2, PieceType::L);
    assert_eq!(board.full_rows(), vec![2]);
    fill_row(&mut board, 0, PieceType::I);
    fill_row(&mut board, 5, PieceType::I);
    assert_eq!(board.full_rows(), vec![0, 2, 5]);
}

#[test]
fn clear_and_collapse_drops_the_rows_above() {
    let mut board = Board::new();
    // rows 5 and 7 full, every other row up to 9 holds two cells
    for y in 0..10 {
        if y == 5 || y == 7 {
            fill_row(&mut board, y, PieceType::I);
        } else {
            settle_one(&mut board, y % 10, y, PieceType::T);
            settle_one(&mut board, (y + 3) % 10, y, PieceType::Z);
        }
    }
    let before = board.cells();
    assert_eq!(before.len(), 8 * 2 + 20);
    board.clear_and_collapse(&vec![5, 7]);
    let mut expected: Vec<(Block, PieceType)> = Vec::new();
    for (b, tag) in before {
        if b.y == 5 || b.y == 7 {
            continue;
        }
        let drop = if b.y > 7 {
            2
        } else if b.y > 5 {
            1
        } else {
            0
        };
        expected.push((Block { x: b.x, y: b.y - drop }, tag));
    }
    assert_eq!(board.cells(), expected);
    assert_eq!(board.cells().len(), 16);
    // the cell between the cleared rows went down one row
    assert_eq!(board.get(6, 5), Some(PieceType::T));
    assert_eq!(board.get(9, 5), Some(PieceType::Z));
    // the cells above both went down two rows
    assert_eq!(board.get(8, 6), Some(PieceType::T));
    assert_eq!(board.get(9, 7), Some(PieceType::T));
    assert_eq!(board.get(2, 7), Some(PieceType::Z));
    // the cells below stayed
    assert_eq!(board.get(4, 4), Some(PieceType::T));
    assert_eq!(board.get(0, 0), Some(PieceType::T));
    assert!(board.full_rows().is_empty());
}

#[test]
fn clear_and_collapse_takes_rows_in_any_order() {
    let mut a = Board::new();
    let mut b = Board::new();
    for board in [&mut a, &mut b] {
        fill_row(board, 1, PieceType::I);
        fill_row(board, 2, PieceType::J);
        settle_one(board, 0, 0, PieceType::O);
        settle_one(board, 4, 3, PieceType::S);
        settle_one(board, 5, 4, PieceType::S);
    }
    a.clear_and_collapse(&vec![1, 2]);
    b.clear_and_collapse(&vec![2, 1, 2]);
    assert_eq!(a.cells(), b.cells());
    assert_eq!(positions(&a), vec![(0, 0), (4, 1), (5, 2)]);
}

#[test]
fn clear_and_collapse_ignores_rows_that_are_not_there() {
    let mut board = Board::new();
    settle_one(&mut board, 0, 0, PieceType::O);
    settle_one(&mut board, 1, 1, PieceType::O);
    board.clear_and_collapse(&vec![-3, 2, 40]);
    assert_eq!(positions(&board), vec![(0, 0), (1, 1)]);
    board.clear_and_collapse(&vec![]);
    assert_eq!(positions(&board), vec![(0, 0), (1, 1)]);
}

#[test]
fn clear_and_collapse_removes_a_row_that_is_not_full() {
    let mut board = Board::new();
    settle_one(&mut board, 0, 0, PieceType::O);
    settle_one(&mut board, 1, 1, PieceType::O);
    settle_one(&mut board, 2, 2, PieceType::O);
    board.clear_and_collapse(&vec![1]);
    assert_eq!(positions(&board), vec![(0, 0), (2, 1)]);
}

#[test]
fn check_full_line_scores_two_lines() {
    let mut board = Board::new();
    for y in 0..10 {
        if y == 5 || y == 7 {
            fill_row(&mut board, y, PieceType::I);
        } else {
            settle_one(&mut board, y, y, PieceType::T);
        }
    }
    let mut score = Score(50);
    let mut lines = Lines(3);
    let count = check_full_line(&mut board, &mut score, &mut lines);
    assert_eq!(count, 2);
    assert_eq!(lines, Lines(5));
    assert_eq!(score, Score(250));
    assert_eq!(
        positions(&board),
        vec![(0, 0), (1, 1), (2, 2), (3, 3), (4, 4), (6, 5), (8, 6), (9, 7)]
    );
}

#[test]
fn score_table() {
    let deltas = [0u32, 100, 200, 400, 800];
    for n in 0..5usize {
        assert_eq!(points_for(n as u32), deltas[n]);
        let mut board = Board::new();
        for y in 0..n {
            fill_row(&mut board, y as i32, PieceType::I);
        }
        settle_one(&mut board, 0, n as i32, PieceType::O);
        let mut score = Score(1000);
        let mut lines = Lines(10);
        let count = check_full_line(&mut board, &mut score, &mut lines);
        assert_eq!(count, n as u32);
        assert_eq!(score.0, 1000 + deltas[n]);
        assert_eq!(lines.0, 10 + n as u32);
        assert_eq!(positions(&board), vec![(0, 0)]);
    }
}

#[test]
fn apply_clear_counts_lines_and_points() {
    let mut score = Score(0);
    let mut lines = Lines(0);
    apply_clear(&mut score, &mut lines, 4);
    apply_clear(&mut score, &mut lines, 0);
    apply_clear(&mut score, &mut lines, 3);
    apply_clear(&mut score, &mut lines, 1);
    assert_eq!(score, Score(1300));
    assert_eq!(lines, Lines(8));
    reset_score(&mut score);
    reset_lines(&mut lines);
    assert_eq!(score, Score(0));
    assert_eq!(lines, Lines(0));
}

#[test]
fn overflow_begins_at_row_nineteen() {
    let mut board = Board::new();
    settle_one(&mut board, 4, 18, PieceType::I);
    assert!(!board.is_overflowing());
    settle_one(&mut board, 4, 19, PieceType::I);
    assert!(board.is_overflowing());
    let mut high = Board::new();
    settle_one(&mut high, 0, 22, PieceType::I);
    assert!(high.is_overflowing());
}

#[test]
fn check_game_over_ends_the_game_on_overflow() {
    let mut board = Board::new();
    settle_one(&mut board, 4, 18, PieceType::I);
    let mut app = AppState::InGame;
    let mut game = GameState::GamePlaying;
    assert!(!check_game_over(&board, &mut app, &mut game));
    assert_eq!((app, game), (AppState::InGame, GameState::GamePlaying));
    settle_one(&mut board, 9, 19, PieceType::I);
    assert!(check_game_over(&board, &mut app, &mut game));
    assert_eq!((app, game), (AppState::GameOver, GameState::GameQuited));
}

#[test]
fn clear_game_board_removes_cells_and_piece() {
    let mut board = Board::new();
    fill_row(&mut board, 0, PieceType::I);
    settle_one(&mut board, 3, 19, PieceType::O);
    let mut piece = Some(ActivePiece {
        piece_type: PieceType::O,
        orientation: Orientation::Deg0,
        blocks: [
            Block { x: 4, y: 21 },
            Block { x: 4, y: 20 },
            Block { x: 5, y: 21 },
            Block { x: 5, y: 20 },
        ],
        movable: Movable { can_down: true, can_left: true, can_right: true },
    });
    clear_game_board(&mut board, &mut piece);
    assert!(board.cells().is_empty());
    assert!(!board.is_overflowing());
    assert_eq!(piece, None);
    board.clear();
    assert!(board.cells().is_empty());
}
