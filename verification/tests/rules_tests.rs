use tetris::blocks::{BlockType, Tetromino};
use tetris::board::Board;
use tetris::rules::can_move;

#[test]
fn piece_fits_on_an_empty_board() {
    let board = Board::new(20, 10);
    let t = Tetromino::new(BlockType::T, 3, 0);
    assert!(can_move(&board, &t, 0, 0));
    assert!(can_move(&board, &t, -1, 0));
    assert!(can_move(&board, &t, 1, 0));
    assert!(can_move(&board, &t, 0, 1));
}

#[test]
fn columns_left_of_the_board_are_refused() {
    let board = Board::new(20, 10);
    // T in its first orientation has a cell in column x.
    let t = Tetromino::new(BlockType::T, 0, 5);
    assert!(can_move(&board, &t, 0, 0));
    assert!(!can_move(&board, &t, -1, 0));
    assert!(!can_move(&board, &t, -100, 0));
    assert!(!can_move(&board, &t, i32::MIN, 0));
}

#[test]
fn columns_right_of_the_board_are_refused() {
    let board = Board::new(20, 10);
    // T in its first orientation reaches column x + 2.
    let t = Tetromino::new(BlockType::T, 7, 5);
    assert!(can_move(&board, &t, 0, 0));
    assert!(!can_move(&board, &t, 1, 0));
    assert!(!can_move(&board, &t, i32::MAX, 0));
}

#[test]
fn rows_below_the_floor_are_refused() {
    let board = Board::new(20, 10);
    // T in its first orientation reaches row y + 1.
    let t = Tetromino::new(BlockType::T, 3, 18);
    assert!(can_move(&board, &t, 0, 0));
    assert!(!can_move(&board, &t, 0, 1));
    assert!(!can_move(&board, &t, 0, i32::MAX));
}

#[test]
fn rows_above_the_board_are_open() {
    let mut board = Board::new(20, 10);
    for c in 0..10 {
        board.set_cell(0, c, Some(1));
    }
    let t = Tetromino::new(BlockType::O, 3, -2);
    assert!(can_move(&board, &t, 0, 0));
    assert!(can_move(&board, &t, 0, -1000));
    assert!(can_move(&board, &t, 0, i32::MIN));
    // Still bounded sideways.
    assert!(!can_move(&board, &t, -5, 0));
    assert!(!can_move(&board, &t, 7, 0));
    // One row lower the piece would overlap the filled top row.
    assert!(!can_move(&board, &t, 0, 1));
}

#[test]
fn piece_partly_above_the_board() {
    let mut board = Board::new(20, 10);
    let t = Tetromino { kind: BlockType::I, rotation: 1, x: 2, y: -2 };
    // Cells: (4,-2) (4,-1) (4,0) (4,1).
    assert!(can_move(&board, &t, 0, 0));
    board.set_cell(1, 4, Some(1));
    assert!(!can_move(&board, &t, 0, 0));
    assert!(can_move(&board, &t, 0, -1));
    assert!(can_move(&board, &t, 1, 0));
}

#[test]
fn filled_cells_block_the_piece() {
    let mut board = Board::new(20, 10);
    board.set_cell(10, 4, Some(3));
    let t = Tetromino::new(BlockType::O, 3, 8);
    // Cells: (4,8) (5,8) (4,9) (5,9).
    assert!(can_move(&board, &t, 0, 0));
    assert!(!can_move(&board, &t, 0, 1));
    assert!(!can_move(&board, &t, -1, 1));
    assert!(can_move(&board, &t, 1, 1));
    assert!(can_move(&board, &t, -2, 1));
}

#[test]
fn nothing_fits_on_a_board_without_columns() {
    let board = Board::new(5, 0);
    let t = Tetromino::new(BlockType::O, 0, 0);
    assert!(!can_move(&board, &t, 0, 0));
}

#[test]
fn only_rows_above_fit_on_a_board_without_rows() {
    let board = Board::new(0, 10);
    let t = Tetromino::new(BlockType::O, 0, 0);
    assert!(!can_move(&board, &t, 0, 0));
    assert!(can_move(&board, &t, 0, -2));
}
