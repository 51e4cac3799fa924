//! The game session: what one frame does to the board, the active piece,
//! the gravity timer, the score and the game-over flag.

use crate::blocks::{random_kind, random_tetromino, BlockType, Tetromino};
use crate::board::{cleared, full_row_count, with_cell, Board};
use crate::rules::{can_move, can_place, lemma_cells_near_origin};
use vstd::prelude::*;

verus! {

/// Columns of the standard board.
pub const BOARD_COLS: u32 = 10;

/// Rows of the standard board.
pub const BOARD_ROWS: u32 = 20;

/// Frames between two gravity ticks.
pub const DROP_FRAMES: u32 = 30;

/// Points for each cleared line.
pub const LINE_SCORE: usize = 10;

/// The widest and tallest board on which every position of a piece is still
/// a representable coordinate.
pub const MAX_DIM: u32 = 0x7fff_fffc;

/// What the event source reports in a frame.
#[derive(Debug, Clone, Copy, PartialEq, Eq, Structural)]
pub enum Event {
    /// The window was asked to close.
    Quit,
    /// The escape key went down.
    Escape,
    /// The left arrow went down: move left.
    Left,
    /// The right arrow went down: move right.
    Right,
    /// The down arrow went down: soft drop by one row.
    Down,
    /// The up arrow went down: rotate.
    Up,
    /// Any other key went down.
    OtherKey,
    /// Anything that is not a key press or a quit request.
    Other,
}

/// Whether an event ends the session: quit or escape while playing; any key
/// or quit once the game is over.
pub open spec fn ends_session_spec(event: Event, game_over: bool) -> bool {
    if game_over {
        event != Event::Other
    } else {
        event == Event::Quit || event == Event::Escape
    }
}

/// Whether an event ends the session.
pub fn ends_session(event: Event, game_over: bool) -> (ends: bool)
    ensures
        ends == ends_session_spec(event, game_over),
{
    if game_over {
        !matches!(event, Event::Other)
    } else {
        matches!(event, Event::Quit | Event::Escape)
    }
}

/// The column at which a new piece's origin is placed on a board `cols`
/// wide: two left of the middle, so that its 4x4 box is centred.
pub open spec fn spawn_column(cols: int) -> int {
    cols / 2 - 2
}

/// The piece that enters the board: the given kind in the first
/// orientation, horizontally centred, at the top row.
pub open spec fn spawned(kind: BlockType, cols: int) -> Tetromino
    recommends
        0 <= cols <= MAX_DIM,
{
    Tetromino { kind, rotation: 0, x: spawn_column(cols) as i32, y: 0 }
}

/// A session as plain values.
pub struct SessionView {
    pub grid: Seq<Seq<Option<u8>>>,
    pub cols: int,
    pub piece: Tetromino,
    pub drop_timer: int,
    pub score: int,
    pub game_over: bool,
}

/// The grid with the cells of the piece that lie on it filled with the
/// marker of the piece's kind.
pub open spec fn merged(grid: Seq<Seq<Option<u8>>>, piece: Tetromino) -> Seq<Seq<Option<u8>>> {
    merged_upto(grid, piece, 4)
}

/// The grid with the first `n` cells of the piece written into it.
pub open spec fn merged_upto(grid: Seq<Seq<Option<u8>>>, piece: Tetromino, n: int) -> Seq<
    Seq<Option<u8>>,
>
    decreases n,
{
    if n <= 0 {
        grid
    } else {
        with_cell(
            merged_upto(grid, piece, n - 1),
            piece.cell(n - 1).1,
            piece.cell(n - 1).0,
            Some(piece.kind.index_spec() as u8),
        )
    }
}

/// Some cell of the piece lies above the top row.
pub open spec fn reaches_above(piece: Tetromino) -> bool {
    exists|i: int| 0 <= i < 4 && (#[trigger] piece.cell(i)).1 < 0
}

impl SessionView {
    /// The session with another active piece and everything else unchanged.
    pub open spec fn with_piece(self, piece: Tetromino) -> SessionView {
        SessionView { piece, ..self }
    }

    /// The session after one event. A move or a rotation is carried out
    /// where the piece can be placed in its new position, and dropped
    /// otherwise; other events change nothing.
    pub open spec fn after_event(self, event: Event) -> SessionView {
        match event {
            Event::Left => if can_place(self.grid, self.cols, self.piece, -1, 0) {
                self.with_piece(self.piece.shifted(-1, 0))
            } else {
                self
            },
            Event::Right => if can_place(self.grid, self.cols, self.piece, 1, 0) {
                self.with_piece(self.piece.shifted(1, 0))
            } else {
                self
            },
            Event::Down => if can_place(self.grid, self.cols, self.piece, 0, 1) {
                self.with_piece(self.piece.shifted(0, 1))
            } else {
                self
            },
            Event::Up => if can_place(self.grid, self.cols, self.piece.rotated(), 0, 0) {
                self.with_piece(self.piece.rotated())
            } else {
                self
            },
            _ => self,
        }
    }

    /// The session after locking the active piece: its cells on the grid are
    /// filled; a cell above the top row ends the game; full lines are
    /// cleared and scored; and `next` enters, ending the game if it has no
    /// room.
    pub open spec fn after_lock(self, next: BlockType) -> SessionView {
        let filled = merged(self.grid, self.piece);
        let swept = cleared(filled, self.cols as nat);
        let piece = spawned(next, self.cols);
        SessionView {
            grid: swept,
            cols: self.cols,
            piece,
            drop_timer: self.drop_timer,
            score: self.score + LINE_SCORE * full_row_count(filled),
            game_over: self.game_over || reaches_above(self.piece) || !can_place(
                swept,
                self.cols,
                piece,
                0,
                0,
            ),
        }
    }

    /// The session after a gravity tick: the piece one row lower where it
    /// can be placed there, and locked where it cannot.
    pub open spec fn after_gravity(self, next: BlockType) -> SessionView {
        if can_place(self.grid, self.cols, self.piece, 0, 1) {
            self.with_piece(self.piece.shifted(0, 1))
        } else {
            self.after_lock(next)
        }
    }

    /// The session after the timer has advanced by one frame: a gravity
    /// tick whenever the timer reaches a multiple of the drop interval.
    pub open spec fn after_tick(self, next: BlockType) -> SessionView {
        let ticked = SessionView { drop_timer: self.drop_timer + 1, ..self };
        if ticked.drop_timer % (DROP_FRAMES as int) == 0 {
            ticked.after_gravity(next)
        } else {
            ticked
        }
    }
}

/// The index of the first event that ends a running session, or the number
/// of events if none does.
pub open spec fn first_exit(events: Seq<Event>) -> int
    decreases events.len(),
{
    if events.len() == 0 {
        0
    } else if ends_session_spec(events[0], false) {
        0
    } else {
        1 + first_exit(events.drop_first())
    }
}

/// The session after the given events, applied in arrival order.
pub open spec fn after_events(session: SessionView, events: Seq<Event>) -> SessionView
    decreases events.len(),
{
    if events.len() == 0 {
        session
    } else {
        after_events(session, events.drop_last()).after_event(events.last())
    }
}

/// Some event of the batch ends a session that is over.
pub open spec fn acknowledged(events: Seq<Event>) -> bool {
    exists|i: int| 0 <= i < events.len() && ends_session_spec(#[trigger] events[i], true)
}

/// One frame. Returns the session after it and whether the session ends.
/// A session that is over changes no more and ends on any key or quit.
/// A running session takes the events in order; a quit or escape ends it on
/// the spot, with the events before it applied and no timer step. Otherwise
/// the timer advances and gravity acts when due, with `next` as the kind of
/// the piece that enters after a lock.
pub open spec fn after_frame(session: SessionView, events: Seq<Event>, next: BlockType) -> (
    SessionView,
    bool,
) {
    if session.game_over {
        (session, acknowledged(events))
    } else if first_exit(events) < events.len() {
        (after_events(session, events.take(first_exit(events))), true)
    } else {
        (after_events(session, events).after_tick(next), false)
    }
}

/// `n` events come before the first one that ends a running session.
pub open spec fn is_first_exit(events: Seq<Event>, n: int) -> bool {
    &&& 0 <= n <= events.len()
    &&& forall|j: int| 0 <= j < n ==> !ends_session_spec(#[trigger] events[j], false)
    &&& n < events.len() ==> ends_session_spec(events[n], false)
}

/// `first_exit` is the one index that `is_first_exit` describes.
pub proof fn lemma_first_exit(events: Seq<Event>, n: int)
    requires
        is_first_exit(events, n),
    ensures
        first_exit(events) == n,
    decreases events.len(),
{
    if n > 0 {
        let rest = events.drop_first();
        assert forall|j: int| 0 <= j < n - 1 implies !ends_session_spec(
            #[trigger] rest[j],
            false,
        ) by {
            assert(rest[j] == events[j + 1]);
        }
        lemma_first_exit(rest, n - 1);
    }
}

/// The game session: the board, the active piece, the frame counter that
/// times gravity, the score and the terminal game-over flag.
#[derive(Debug, Clone)]
pub struct GameSession {
    pub board: Board,
    pub current: Tetromino,
    pub drop_timer: u32,
    pub score: usize,
    pub game_over: bool,
}

impl View for GameSession {
    type V = SessionView;

    open spec fn view(&self) -> SessionView {
        SessionView {
            grid: self.board@,
            cols: self.board.cols as int,
            piece: self.current,
            drop_timer: self.drop_timer as int,
            score: self.score as int,
            game_over: self.game_over,
        }
    }
}

/// The piece of the given kind as it enters a board `cols` wide.
pub fn spawn(kind: BlockType, cols: usize) -> (piece: Tetromino)
    requires
        cols <= MAX_DIM,
    ensures
        piece == spawned(kind, cols as int),
        piece.wf(),
{
    Tetromino::new(kind, (cols / 2) as i32 - 2, 0)
}

impl GameSession {
    /// The board and the piece are well formed, and the board is small
    /// enough for every position on it to be a representable coordinate.
    pub open spec fn wf(&self) -> bool {
        &&& self.board.wf()
        &&& self.current.wf()
        &&& self.board.rows <= MAX_DIM
        &&& self.board.cols <= MAX_DIM
    }

    /// Whether the session is well formed.
    pub fn is_wf(&self) -> (ok: bool)
        ensures
            ok == self.wf(),
    {
        self.board.is_wf() && self.current.is_wf() && self.board.rows <= MAX_DIM as usize
            && self.board.cols <= MAX_DIM as usize
    }

    /// The frame counter can take one more frame, and the score can take a
    /// clear of every row of the board.
    pub open spec fn headroom(&self) -> bool {
        &&& self.drop_timer < u32::MAX
        &&& self.score + LINE_SCORE * self.board.rows <= usize::MAX
    }

    /// Whether the counters leave room for one more frame.
    pub fn has_headroom(&self) -> (ok: bool)
        ensures
            ok == self.headroom(),
    {
        self.drop_timer < u32::MAX && self.board.rows <= (usize::MAX - self.score) / LINE_SCORE
    }

    /// A fresh session on an empty board, with a piece of kind `first`
    /// entering.
    pub fn new(rows: u32, cols: u32, first: BlockType) -> (session: GameSession)
        requires
            rows <= MAX_DIM,
            cols <= MAX_DIM,
        ensures
            session.wf(),
            session.board.rows == rows,
            session@ == (SessionView {
                grid: crate::board::empty_rows(rows as nat, cols as nat),
                cols: cols as int,
                piece: spawned(first, cols as int),
                drop_timer: 0,
                score: 0,
                game_over: false,
            }),
    {
        GameSession {
            board: Board::new(rows, cols),
            current: spawn(first, cols as usize),
            drop_timer: 0,
            score: 0,
            game_over: false,
        }
    }

    /// A fresh session on an empty board, with a piece of a kind drawn at
    /// random entering.
    pub fn start(rows: u32, cols: u32) -> (session: GameSession)
        requires
            rows <= MAX_DIM,
            cols <= MAX_DIM,
        ensures
            session.wf(),
            session.board.rows == rows,
            session@ == (SessionView {
                grid: crate::board::empty_rows(rows as nat, cols as nat),
                cols: cols as int,
                piece: spawned(session.current.kind, cols as int),
                drop_timer: 0,
                score: 0,
                game_over: false,
            }),
    {
        let piece = random_tetromino((cols / 2) as i32 - 2, 0);
        GameSession {
            board: Board::new(rows, cols),
            current: piece,
            drop_timer: 0,
            score: 0,
            game_over: false,
        }
    }

    /// Carries out one input event: a move or a rotation where the piece
    /// can be placed in its new position; nothing otherwise.
    pub fn apply_event(&mut self, event: Event)
        requires
            old(self).wf(),
        ensures
            final(self).wf(),
            final(self).board.rows == old(self).board.rows,
            final(self)@ == old(self)@.after_event(event),
            final(self).board == old(self).board,
            final(self).drop_timer == old(self).drop_timer,
            final(self).score == old(self).score,
            final(self).game_over == old(self).game_over,
    {
        proof {
            lemma_cells_near_origin(self.current);
        }
        match event {
            Event::Left => {
                if can_move(&self.board, &self.current, -1, 0) {
                    assert(self.current.cell(0).0 - 1 >= 0);
                    self.current.x -= 1;
                }
            },
            Event::Right => {
                if can_move(&self.board, &self.current, 1, 0) {
                    assert(self.current.cell(0).0 + 1 < self.board.cols);
                    self.current.x += 1;
                }
            },
            Event::Down => {
                if can_move(&self.board, &self.current, 0, 1) {
                    assert(self.current.cell(0).1 + 1 < self.board.rows);
                    self.current.y += 1;
                }
            },
            Event::Up => {
                let mut rotated = self.current;
                rotated.rotate();
                if can_move(&self.board, &rotated, 0, 0) {
                    self.current = rotated;
                }
            },
            _ => {},
        }
    }

    /// Writes the cells of the active piece that lie on the board into it,
    /// and ends the game if any cell lies above the top row.
    pub fn lock_piece(&mut self)
        requires
            old(self).wf(),
        ensures
            final(self).wf(),
            final(self).board.rows == old(self).board.rows,
            final(self)@ == (SessionView {
                grid: merged(old(self)@.grid, old(self).current),
                game_over: old(self).game_over || reaches_above(old(self).current),
                ..old(self)@
            }),
    {
        let cells = self.current.cells();
        let marker: u8 = self.current.kind.index();
        let ghost before = self@;
        let ghost rows = self.board.rows;
        let ghost piece = self.current;
        let mut i: usize = 0;
        while i < 4
            invariant
                i <= 4,
                self.wf(),
                self.board.rows == rows,
                self.current == piece,
                marker == piece.kind.index_spec(),
                forall|k: int|
                    0 <= k < 4 ==> (#[trigger] cells[k]).0 == piece.cell(k).0 && cells[k].1
                        == piece.cell(k).1,
                self@ == (SessionView {
                    grid: merged_upto(before.grid, piece, i as int),
                    game_over: before.game_over || exists|k: int|
                        0 <= k < i && (#[trigger] piece.cell(k)).1 < 0,
                    ..before
                }),
            decreases 4 - i,
        {
            let x: i32 = cells[i].0;
            let y: i32 = cells[i].1;
            assert(x == piece.cell(i as int).0 && y == piece.cell(i as int).1);
            if y >= 0 && x >= 0 && (y as usize) < self.board.rows && (x as usize)
                < self.board.cols {
                self.board.set_cell(y as usize, x as usize, Some(marker));
            } else if y < 0 {
                self.game_over = true;
            }
            i += 1;
        }
    }

    /// Locks the active piece, clears and scores the full lines, and lets a
    /// piece of kind `next` enter; the game is over if the lock reached
    /// above the top row or the new piece has no room.
    pub fn lock_and_spawn(&mut self, next: BlockType)
        requires
            old(self).wf(),
            old(self).score + LINE_SCORE * old(self).board.rows <= usize::MAX,
        ensures
            final(self).wf(),
            final(self).board.rows == old(self).board.rows,
            final(self)@ == old(self)@.after_lock(next),
            old(self).score <= final(self).score <= old(self).score + LINE_SCORE * old(
                self,
            ).board.rows,
    {
        self.lock_piece();
        proof {
            crate::board::lemma_survivors_bound(self.board@);
        }
        let count: usize = self.board.clear_full_lines();
        self.score += count * LINE_SCORE;
        self.current = spawn(next, self.board.cols);
        if !can_move(&self.board, &self.current, 0, 0) {
            self.game_over = true;
        }
    }

    /// One gravity tick: the piece falls by one row, or locks where it
    /// cannot fall.
    pub fn gravity(&mut self, next: BlockType)
        requires
            old(self).wf(),
            old(self).score + LINE_SCORE * old(self).board.rows <= usize::MAX,
        ensures
            final(self).wf(),
            final(self).board.rows == old(self).board.rows,
            final(self)@ == old(self)@.after_gravity(next),
    {
        if can_move(&self.board, &self.current, 0, 1) {
            self.fall();
        } else {
            self.lock_and_spawn(next);
        }
    }

    /// Moves the active piece one row down, where it can be placed there.
    pub fn fall(&mut self)
        requires
            old(self).wf(),
            can_place(old(self)@.grid, old(self)@.cols, old(self).current, 0, 1),
        ensures
            final(self).wf(),
            final(self).board.rows == old(self).board.rows,
            final(self)@ == old(self)@.with_piece(old(self).current.shifted(0, 1)),
    {
        proof {
            lemma_cells_near_origin(self.current);
        }
        assert(self.current.cell(0).1 + 1 < self.board.rows);
        self.current.y += 1;
    }

    /// Advances the frame counter and lets gravity act when it is due.
    pub fn tick(&mut self, next: BlockType)
        requires
            old(self).wf(),
            old(self).headroom(),
        ensures
            final(self).wf(),
            final(self).board.rows == old(self).board.rows,
            final(self)@ == old(self)@.after_tick(next),
    {
        self.drop_timer += 1;
        if self.drop_timer % DROP_FRAMES == 0 {
            self.gravity(next);
        }
    }

    /// Takes the events of a running session in arrival order, up to the
    /// first that ends it. Returns how many were applied: fewer than there
    /// are exactly when one of them ends the session.
    pub fn play_events(&mut self, events: &Vec<Event>) -> (applied: usize)
        requires
            old(self).wf(),
        ensures
            final(self).wf(),
            final(self).board.rows == old(self).board.rows,
            applied == first_exit(events@),
            applied <= events.len(),
            final(self)@ == after_events(old(self)@, events@.take(applied as int)),
            final(self).board == old(self).board,
            final(self).drop_timer == old(self).drop_timer,
            final(self).score == old(self).score,
            final(self).game_over == old(self).game_over,
    {
        let ghost before = self@;
        let mut i: usize = 0;
        while i < events.len()
            invariant
                i <= events.len(),
                self.wf(),
                before == old(self)@,
                self.board == old(self).board,
                self.drop_timer == old(self).drop_timer,
                self.score == old(self).score,
                self.game_over == old(self).game_over,
                forall|j: int| 0 <= j < i ==> !ends_session_spec(#[trigger] events@[j], false),
                self@ == after_events(before, events@.take(i as int)),
            decreases events.len() - i,
        {
            if ends_session(events[i], false) {
                proof {
                    lemma_first_exit(events@, i as int);
                }
                return i;
            }
            self.apply_event(events[i]);
            proof {
                assert(events@.take(i + 1).drop_last() == events@.take(i as int));
            }
            i += 1;
        }
        proof {
            lemma_first_exit(events@, i as int);
        }
        i
    }

    /// One frame, with `next` as the kind of the piece that enters if the
    /// active one locks. Returns whether the session ends.
    pub fn step_with(&mut self, events: &Vec<Event>, next: BlockType) -> (exit: bool)
        requires
            old(self).wf(),
            old(self).headroom(),
        ensures
            final(self).wf(),
            final(self).board.rows == old(self).board.rows,
            (final(self)@, exit) == after_frame(old(self)@, events@, next),
    {
        if self.game_over {
            return acknowledges(events);
        }
        let applied = self.play_events(events);
        if applied < events.len() {
            return true;
        }
        proof {
            assert(events@.take(applied as int) == events@);
        }
        self.tick(next);
        false
    }

    /// One frame, as `step_with`, with the kind of the entering piece drawn
    /// at random when the active piece locks.
    pub fn step(&mut self, events: &Vec<Event>) -> (exit: bool)
        requires
            old(self).wf(),
            old(self).headroom(),
        ensures
            final(self).wf(),
            final(self).board.rows == old(self).board.rows,
            exists|next: BlockType| (final(self)@, exit) == after_frame(old(self)@, events@, next),
    {
        let ghost before = self@;
        if self.game_over {
            let exit = acknowledges(events);
            assert((self@, exit) == after_frame(before, events@, BlockType::I));
            return exit;
        }
        let applied = self.play_events(events);
        if applied < events.len() {
            assert((self@, true) == after_frame(before, events@, BlockType::I));
            return true;
        }
        proof {
            assert(events@.take(applied as int) == events@);
        }
        self.drop_timer += 1;
        if self.drop_timer % DROP_FRAMES == 0 {
            if can_move(&self.board, &self.current, 0, 1) {
                self.fall();
                assert((self@, false) == after_frame(before, events@, BlockType::I));
            } else {
                let entering = random_kind();
                self.lock_and_spawn(entering);
                assert((self@, false) == after_frame(before, events@, entering));
            }
        } else {
            assert((self@, false) == after_frame(before, events@, BlockType::I));
        }
        false
    }
}

/// Whether some event of the batch ends a session that is over.
pub fn acknowledges(events: &Vec<Event>) -> (found: bool)
    ensures
        found == acknowledged(events@),
{
    let mut i: usize = 0;
    while i < events.len()
        invariant
            i <= events.len(),
            forall|j: int| 0 <= j < i ==> !ends_session_spec(#[trigger] events@[j], true),
        decreases events.len() - i,
    {
        if ends_session(events[i], true) {
            return true;
        }
        i += 1;
    }
    false
}

} // verus!
