use tetris::blocks::{BlockType, Tetromino};
use tetris::board::Board;
use tetris::game::{
    acknowledges, ends_session, spawn, Event, GameSession, BOARD_COLS, BOARD_ROWS, DROP_FRAMES,
    LINE_SCORE, MAX_DIM,
};

fn filled(board: &Board) -> Vec<(usize, usize)> {
    let mut cells = Vec::new();
    for r in 0..board.rows {
        for c in 0..board.cols {
            if board.get_cell(r, c).is_some() {
                cells.push((r, c));
            }
        }
    }
    cells
}

#[test]
fn standard_sizes() {
    assert_eq!(BOARD_COLS, 10);
    assert_eq!(BOARD_ROWS, 20);
    assert_eq!(DROP_FRAMES, 30);
    assert_eq!(LINE_SCORE, 10);
    assert_eq!(MAX_DIM, (i32::MAX - 3) as u32);
}

#[test]
fn piece_enters_centred_at_the_top() {
    assert_eq!(spawn(BlockType::T, 10), Tetromino { kind: BlockType::T, rotation: 0, x: 3, y: 0 });
    assert_eq!(spawn(BlockType::I, 4).x, 0);
    assert_eq!(spawn(BlockType::I, 0).x, -2);
    assert_eq!(spawn(BlockType::I, MAX_DIM as usize).x, 1073741820);
}

#[test]
fn new_session_is_ready_to_play() {
    let s = GameSession::new(20, 10, BlockType::Z);
    assert_eq!(s.board.grid, Board::new(20, 10).grid);
    assert_eq!(s.current, Tetromino { kind: BlockType::Z, rotation: 0, x: 3, y: 0 });
    assert_eq!(s.drop_timer, 0);
    assert_eq!(s.score, 0);
    assert!(!s.game_over);
    assert!(s.has_headroom());
}

#[test]
fn started_session_has_a_centred_piece() {
    let s = GameSession::start(20, 10);
    assert_eq!((s.current.x, s.current.y, s.current.rotation), (3, 0, 0));
    assert_eq!(s.board.grid, Board::new(20, 10).grid);
    assert_eq!((s.drop_timer, s.score, s.game_over), (0, 0, false));
}

#[test]
fn headroom_is_checked_exactly() {
    let mut s = GameSession::new(20, 10, BlockType::O);
    s.drop_timer = u32::MAX - 1;
    assert!(s.has_headroom());
    s.drop_timer = u32::MAX;
    assert!(!s.has_headroom());
    s.drop_timer = 0;
    s.score = usize::MAX - 200;
    assert!(s.has_headroom());
    s.score = usize::MAX - 199;
    assert!(!s.has_headroom());
}

#[test]
fn what_ends_a_session() {
    assert!(ends_session(Event::Quit, false));
    assert!(ends_session(Event::Escape, false));
    for e in [Event::Left, Event::Right, Event::Down, Event::Up, Event::OtherKey, Event::Other] {
        assert!(!ends_session(e, false));
    }
    for e in [
        Event::Quit,
        Event::Escape,
        Event::Left,
        Event::Right,
        Event::Down,
        Event::Up,
        Event::OtherKey,
    ] {
        assert!(ends_session(e, true));
    }
    assert!(!ends_session(Event::Other, true));
    assert!(!acknowledges(&vec![]));
    assert!(!acknowledges(&vec![Event::Other, Event::Other]));
    assert!(acknowledges(&vec![Event::Other, Event::OtherKey]));
}

#[test]
fn moves_are_carried_out_where_they_fit() {
    let mut s = GameSession::new(20, 10, BlockType::O);
    s.apply_event(Event::Left);
    assert_eq!((s.current.x, s.current.y), (2, 0));
    s.apply_event(Event::Right);
    s.apply_event(Event::Right);
    assert_eq!((s.current.x, s.current.y), (4, 0));
    s.apply_event(Event::Down);
    assert_eq!((s.current.x, s.current.y), (4, 1));
    s.apply_event(Event::Up);
    assert_eq!(s.current.rotation, 1);
    s.apply_event(Event::OtherKey);
    s.apply_event(Event::Other);
    s.apply_event(Event::Quit);
    s.apply_event(Event::Escape);
    assert_eq!(s.current, Tetromino { kind: BlockType::O, rotation: 1, x: 4, y: 1 });
    assert_eq!((s.drop_timer, s.score, s.game_over), (0, 0, false));
}

#[test]
fn moves_that_do_not_fit_are_dropped() {
    let mut s = GameSession::new(20, 10, BlockType::O);
    // O occupies columns x + 1 and x + 2.
    for _ in 0..20 {
        s.apply_event(Event::Left);
    }
    assert_eq!(s.current.x, -1);
    for _ in 0..20 {
        s.apply_event(Event::Right);
    }
    assert_eq!(s.current.x, 7);
    for _ in 0..40 {
        s.apply_event(Event::Down);
    }
    assert_eq!(s.current.y, 18);
    assert_eq!(s.board.grid, Board::new(20, 10).grid);
}

#[test]
fn rotation_is_rejected_whole_when_it_does_not_fit() {
    let mut s = GameSession::new(20, 10, BlockType::I);
    // Upright I in column 9; lying flat it would reach past the wall.
    s.current = Tetromino { kind: BlockType::I, rotation: 1, x: 7, y: 5 };
    s.apply_event(Event::Up);
    assert_eq!(s.current, Tetromino { kind: BlockType::I, rotation: 1, x: 7, y: 5 });
    s.current.x = 5;
    s.apply_event(Event::Up);
    assert_eq!(s.current, Tetromino { kind: BlockType::I, rotation: 2, x: 5, y: 5 });
}

#[test]
fn events_are_taken_in_order_until_one_ends_the_session() {
    let mut s = GameSession::new(20, 10, BlockType::O);
    let events = vec![Event::Left, Event::Down, Event::Escape, Event::Left, Event::Left];
    assert_eq!(s.play_events(&events), 2);
    assert_eq!((s.current.x, s.current.y), (2, 1));
    let events = vec![Event::Right, Event::Other, Event::Right];
    assert_eq!(s.play_events(&events), 3);
    assert_eq!((s.current.x, s.current.y), (4, 1));
    assert_eq!(s.play_events(&vec![Event::Quit]), 0);
    assert_eq!(s.play_events(&vec![]), 0);
}

#[test]
fn gravity_acts_every_thirtieth_frame() {
    let mut s = GameSession::new(20, 10, BlockType::T);
    for frame in 1..=29 {
        assert!(!s.step_with(&vec![], BlockType::I));
        assert_eq!(s.drop_timer, frame);
        assert_eq!(s.current.y, 0);
    }
    assert!(!s.step_with(&vec![], BlockType::I));
    assert_eq!(s.drop_timer, 30);
    assert_eq!(s.current.y, 1);
    for _ in 0..30 {
        s.step_with(&vec![Event::Other], BlockType::I);
    }
    assert_eq!(s.drop_timer, 60);
    assert_eq!(s.current.y, 2);
}

#[test]
fn quit_ends_the_frame_on_the_spot() {
    let mut s = GameSession::new(20, 10, BlockType::T);
    s.drop_timer = 29;
    assert!(s.step_with(&vec![Event::Left, Event::Quit, Event::Left], BlockType::I));
    assert_eq!(s.current, Tetromino { kind: BlockType::T, rotation: 0, x: 2, y: 0 });
    assert_eq!(s.drop_timer, 29);
    assert!(s.step(&vec![Event::Escape]));
    assert_eq!(s.drop_timer, 29);
}

#[test]
fn falling_piece_locks_whole_where_it_comes_to_rest() {
    let mut s = GameSession::new(20, 10, BlockType::T);
    let mut ticks = 0;
    while s.board.grid == Board::new(20, 10).grid {
        s.gravity(BlockType::O);
        ticks += 1;
        assert!(ticks <= 20);
    }
    // T rests with its flat side on the floor: 18 falls, then the lock.
    assert_eq!(ticks, 19);
    assert_eq!(filled(&s.board), vec![(18, 4), (19, 3), (19, 4), (19, 5)]);
    for (r, c) in filled(&s.board) {
        assert_eq!(s.board.get_cell(r, c), Some(2));
    }
    assert_eq!(s.current, Tetromino { kind: BlockType::O, rotation: 0, x: 3, y: 0 });
    assert_eq!(s.score, 0);
    assert!(!s.game_over);
}

#[test]
fn falling_piece_rests_on_the_stack() {
    let mut s = GameSession::new(20, 10, BlockType::O);
    s.board.set_cell(10, 4, Some(6));
    for _ in 0..8 {
        s.gravity(BlockType::I);
    }
    assert_eq!(s.current.y, 8);
    assert_eq!(filled(&s.board), vec![(10, 4)]);
    s.gravity(BlockType::I);
    assert_eq!(filled(&s.board), vec![(8, 4), (8, 5), (9, 4), (9, 5), (10, 4)]);
    assert_eq!(s.board.get_cell(8, 4), Some(1));
    assert_eq!(s.board.get_cell(10, 4), Some(6));
    assert_eq!(s.current.kind, BlockType::I);
}

#[test]
fn lock_above_the_top_row_ends_the_game() {
    let mut s = GameSession::new(20, 10, BlockType::I);
    s.current = Tetromino { kind: BlockType::I, rotation: 1, x: 2, y: -2 };
    s.board.set_cell(2, 4, Some(1));
    s.drop_timer = 29;
    assert!(!s.step_with(&vec![], BlockType::O));
    assert!(s.game_over);
    // The cells of the piece that were on the board are written.
    assert_eq!(filled(&s.board), vec![(0, 4), (1, 4), (2, 4)]);
    assert_eq!(s.drop_timer, 30);
    // From now on nothing moves.
    let board = s.board.grid.clone();
    let piece = s.current;
    s.drop_timer = 59;
    assert!(!s.step_with(&vec![], BlockType::T));
    assert!(!s.step_with(&vec![Event::Other], BlockType::T));
    assert!(s.step_with(&vec![Event::Other, Event::Left], BlockType::T));
    assert!(s.step(&vec![Event::Quit]));
    assert_eq!(s.board.grid, board);
    assert_eq!(s.current, piece);
    assert_eq!(s.drop_timer, 59);
    assert!(s.game_over);
}

#[test]
fn lock_piece_reports_cells_above_the_board() {
    let mut s = GameSession::new(20, 10, BlockType::O);
    s.current.y = -1;
    s.lock_piece();
    assert!(s.game_over);
    assert_eq!(filled(&s.board), vec![(0, 4), (0, 5)]);
    let mut s = GameSession::new(20, 10, BlockType::O);
    s.lock_piece();
    assert!(!s.game_over);
    assert_eq!(filled(&s.board), vec![(0, 4), (0, 5), (1, 4), (1, 5)]);
}

#[test]
fn game_ends_when_the_new_piece_has_no_room() {
    let mut s = GameSession::new(20, 10, BlockType::O);
    for r in 2..20 {
        s.board.set_cell(r, 4, Some(1));
    }
    s.gravity(BlockType::O);
    assert_eq!(s.board.get_cell(0, 4), Some(1));
    assert_eq!(s.board.get_cell(1, 5), Some(1));
    assert_eq!(s.current, Tetromino { kind: BlockType::O, rotation: 0, x: 3, y: 0 });
    assert!(s.game_over);
    assert_eq!(s.score, 0);
}

#[test]
fn each_cleared_line_scores_ten() {
    let mut s = GameSession::new(20, 10, BlockType::I);
    for c in 0..10 {
        if c < 3 || c > 6 {
            s.board.set_cell(19, c, Some(1));
        }
    }
    // Flat I occupies columns 3 to 6 of row y + 1.
    s.current.y = 18;
    s.gravity(BlockType::O);
    assert_eq!(s.score, 10);
    assert_eq!(s.board.grid, Board::new(20, 10).grid);
    assert!(!s.game_over);

    // Four lines at once with an upright I.
    for r in 16..20 {
        for c in 0..10 {
            if c != 5 {
                s.board.set_cell(r, c, Some(1));
            }
        }
    }
    s.board.set_cell(15, 0, Some(4));
    s.current = Tetromino { kind: BlockType::I, rotation: 1, x: 3, y: 16 };
    s.lock_and_spawn(BlockType::T);
    assert_eq!(s.score, 50);
    assert_eq!(filled(&s.board), vec![(19, 0)]);
    assert_eq!(s.board.get_cell(19, 0), Some(4));
    assert_eq!(s.current.kind, BlockType::T);

    // Moves, falls and locks without a full line score nothing.
    for _ in 0..100 {
        s.step_with(&vec![Event::Left, Event::Up, Event::Down], BlockType::O);
    }
    assert_eq!(s.score, 50);
}

#[test]
fn step_draws_the_entering_piece() {
    let mut s = GameSession::new(20, 10, BlockType::O);
    s.current.y = 18;
    s.drop_timer = 29;
    assert!(!s.step(&vec![]));
    assert_eq!(filled(&s.board), vec![(18, 4), (18, 5), (19, 4), (19, 5)]);
    assert_eq!((s.current.x, s.current.y, s.current.rotation), (3, 0, 0));
    assert_eq!(s.drop_timer, 30);
    for _ in 0..29 {
        assert!(!s.step(&vec![Event::Right]));
    }
    assert_eq!(s.current.y, 0);
    assert!(!s.step(&vec![]));
    assert_eq!(s.current.y, 1);
}

#[test]
fn tick_counts_frames() {
    let mut s = GameSession::new(20, 10, BlockType::L);
    s.drop_timer = 58;
    s.tick(BlockType::I);
    assert_eq!((s.drop_timer, s.current.y), (59, 0));
    s.tick(BlockType::I);
    assert_eq!((s.drop_timer, s.current.y), (60, 1));
    s.fall();
    assert_eq!((s.drop_timer, s.current.y), (60, 2));
}

#[test]
fn well_formedness_is_checked_exactly() {
    let mut s = GameSession::new(20, 10, BlockType::S);
    assert!(s.is_wf());
    assert!(s.board.is_wf());
    assert!(s.current.is_wf());
    s.current.rotation = 4;
    assert!(!s.current.is_wf());
    assert!(!s.is_wf());
    s.current.rotation = 3;
    s.current.x = i32::MAX - 2;
    assert!(!s.current.is_wf());
    s.current.x = i32::MAX - 3;
    assert!(s.current.is_wf());
    s.current.y = i32::MAX - 2;
    assert!(!s.current.is_wf());
    s.current.y = i32::MIN;
    assert!(s.is_wf());
    s.board.grid[7].push(None);
    assert!(!s.board.is_wf());
    assert!(!s.is_wf());
    s.board.grid[7].pop();
    assert!(s.is_wf());
    s.board.rows = 21;
    assert!(!s.board.is_wf());
    s.board.rows = 20;
    s.board.grid.pop();
    assert!(!s.is_wf());
}
