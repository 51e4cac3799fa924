use tetris::blocks::{BlockType, Tetromino};
use tetris::board::Board;
use tetris::game::GameSession;
use tetris::overlay::{game_over_text, score_text};
use tetris::render::{
    board_rects, cell_rect, frame_fills, is_drawable, piece_rects, Fill, PixelRect, Rgba, CELL_SIZE,
    WINDOW_HEIGHT, WINDOW_WIDTH,
};

fn rect(x: i32, y: i32) -> PixelRect {
    PixelRect { x, y, width: 32, height: 32 }
}

#[test]
fn window_holds_the_standard_board() {
    assert_eq!(CELL_SIZE, 32);
    assert_eq!(WINDOW_WIDTH, 10 * CELL_SIZE);
    assert_eq!(WINDOW_HEIGHT, 20 * CELL_SIZE);
}

#[test]
fn cell_rect_scales_by_the_cell_size() {
    assert_eq!(cell_rect(0, 0), rect(0, 0));
    assert_eq!(cell_rect(9, 19), rect(288, 608));
    assert_eq!(cell_rect(3, 1), PixelRect { x: 96, y: 32, width: 32, height: 32 });
}

#[test]
fn empty_board_draws_nothing() {
    assert_eq!(board_rects(&Board::new(20, 10)), vec![]);
}

#[test]
fn filled_cells_are_drawn_row_by_row() {
    let mut board = Board::new(20, 10);
    board.set_cell(19, 9, Some(1));
    board.set_cell(19, 0, Some(2));
    board.set_cell(5, 3, Some(3));
    assert_eq!(board_rects(&board), vec![rect(96, 160), rect(0, 608), rect(288, 608)]);
}

#[test]
fn piece_cells_are_drawn_in_table_order() {
    let board = Board::new(20, 10);
    let t = Tetromino::new(BlockType::T, 3, 0);
    assert_eq!(
        piece_rects(&board, &t),
        vec![rect(128, 0), rect(96, 32), rect(128, 32), rect(160, 32)]
    );
}

#[test]
fn piece_cells_off_the_board_are_not_drawn() {
    let board = Board::new(20, 10);
    let t = Tetromino { kind: BlockType::I, rotation: 1, x: 2, y: -2 };
    assert_eq!(piece_rects(&board, &t), vec![rect(128, 0), rect(128, 32)]);
    let t = Tetromino { kind: BlockType::I, rotation: 0, x: 8, y: 18 };
    assert_eq!(piece_rects(&board, &t), vec![rect(256, 608), rect(288, 608)]);
    let t = Tetromino { kind: BlockType::O, rotation: 0, x: -10, y: 0 };
    assert_eq!(piece_rects(&board, &t), vec![]);
}

#[test]
fn largest_drawable_board() {
    assert!(is_drawable(20, 10));
    assert!(is_drawable(67108863, 0));
    assert!(!is_drawable(67108864, 0));
    assert!(!is_drawable(0, 67108864));
    assert_eq!(cell_rect(67108863, 0).x, 2147483616);
}

#[test]
fn frame_plan_lists_board_then_piece() {
    let mut s = GameSession::new(20, 10, BlockType::O);
    s.board.set_cell(19, 0, Some(1));
    let white = Rgba { r: 255, g: 255, b: 255, a: 255 };
    assert_eq!(
        frame_fills(&s),
        vec![
            Fill { color: white, rect: rect(0, 608) },
            Fill { color: white, rect: rect(128, 0) },
            Fill { color: white, rect: rect(160, 0) },
            Fill { color: white, rect: rect(128, 32) },
            Fill { color: white, rect: rect(160, 32) },
        ]
    );
}

#[test]
fn frame_plan_ends_with_the_veil_when_the_game_is_over() {
    let mut s = GameSession::new(20, 10, BlockType::O);
    s.current.y = -5;
    s.game_over = true;
    s.score = 130;
    let plan = frame_fills(&s);
    assert_eq!(
        plan[0],
        Fill {
            color: Rgba { r: 0, g: 0, b: 0, a: 180 },
            rect: PixelRect { x: 0, y: 0, width: 320, height: 640 }
        }
    );
    let red = Rgba { r: 255, g: 0, b: 0, a: 255 };
    let white = Rgba { r: 255, g: 255, b: 255, a: 255 };
    let banner = game_over_text();
    let score = score_text(130);
    assert_eq!(plan.len(), 1 + banner.len() + score.len());
    for (i, rect) in banner.iter().enumerate() {
        assert_eq!(plan[1 + i], Fill { color: red, rect: *rect });
    }
    for (i, rect) in score.iter().enumerate() {
        assert_eq!(plan[1 + banner.len() + i], Fill { color: white, rect: *rect });
    }
}

#[test]
fn overlay_is_painted_over_board_and_piece() {
    let mut s = GameSession::new(20, 10, BlockType::O);
    s.board.set_cell(19, 0, Some(1));
    s.game_over = true;
    let plan = frame_fills(&s);
    let white = Rgba { r: 255, g: 255, b: 255, a: 255 };
    assert_eq!(plan[0], Fill { color: white, rect: rect(0, 608) });
    assert_eq!(plan[4], Fill { color: white, rect: rect(160, 32) });
    assert_eq!(plan[5].color, Rgba { r: 0, g: 0, b: 0, a: 180 });
    assert_eq!(plan.len(), 5 + 1 + game_over_text().len() + score_text(0).len());
}
