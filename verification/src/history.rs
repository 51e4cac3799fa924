//! What holds of a session over one frame and over a run of frames: where
//! the score comes from, what a lock writes, and that game over is final.

use crate::blocks::{lemma_shape_table, pairwise_distinct, shape_offsets, BlockType, Tetromino};
use crate::board::{cell_at, full_row_count};
use crate::game::{
    after_events, after_frame, first_exit, merged, merged_upto, reaches_above, Event, SessionView,
    DROP_FRAMES, LINE_SCORE,
};
use crate::rules::can_place;
use vstd::prelude::*;

verus! {

/// One frame's input: the events that arrived, and the kind of the piece
/// that enters if the active one locks.
pub struct Frame {
    pub events: Seq<Event>,
    pub next: BlockType,
}

/// Events move and turn the piece and touch nothing else.
pub proof fn lemma_events_move_only(session: SessionView, events: Seq<Event>)
    ensures
        after_events(session, events) == session.with_piece(after_events(session, events).piece),
    decreases events.len(),
{
    if events.len() > 0 {
        lemma_events_move_only(session, events.drop_last());
    }
}

/// Whether the frame locks the active piece: the session runs, no event
/// ends it, gravity is due, and the piece cannot fall.
pub open spec fn frame_locks(session: SessionView, frame: Frame) -> bool {
    &&& !session.game_over
    &&& first_exit(frame.events) >= frame.events.len()
    &&& (session.drop_timer + 1) % (DROP_FRAMES as int) == 0
    &&& !can_place(
        session.grid,
        session.cols,
        after_events(session, frame.events).piece,
        0,
        1,
    )
}

/// The lines that the frame clears: the full rows of the grid with the
/// locked piece written into it, and none in a frame that does not lock.
pub open spec fn lines_cleared(session: SessionView, frame: Frame) -> nat {
    if frame_locks(session, frame) {
        full_row_count(merged(session.grid, after_events(session, frame.events).piece))
    } else {
        0
    }
}

/// A frame adds ten points for each line it clears, and nothing else.
pub proof fn lemma_frame_score(session: SessionView, frame: Frame)
    ensures
        after_frame(session, frame.events, frame.next).0.score == session.score + 10
            * lines_cleared(session, frame),
{
    lemma_events_move_only(session, frame.events);
    lemma_events_move_only(session, frame.events.take(first_exit(frame.events)));
}

/// The session after a run of frames.
pub open spec fn after_frames(session: SessionView, frames: Seq<Frame>) -> SessionView
    decreases frames.len(),
{
    if frames.len() == 0 {
        session
    } else {
        let earlier = after_frames(session, frames.drop_last());
        after_frame(earlier, frames.last().events, frames.last().next).0
    }
}

/// The lines cleared over a run of frames.
pub open spec fn total_lines(session: SessionView, frames: Seq<Frame>) -> nat
    decreases frames.len(),
{
    if frames.len() == 0 {
        0
    } else {
        total_lines(session, frames.drop_last()) + lines_cleared(
            after_frames(session, frames.drop_last()),
            frames.last(),
        )
    }
}

/// Over any run of frames the score grows by ten times the lines cleared:
/// a session that starts at zero always shows ten points per line.
pub proof fn lemma_score_counts_lines(session: SessionView, frames: Seq<Frame>)
    ensures
        after_frames(session, frames).score == session.score + 10 * total_lines(session, frames),
        session.score == 0 ==> after_frames(session, frames).score == 10 * total_lines(
            session,
            frames,
        ),
    decreases frames.len(),
{
    if frames.len() > 0 {
        lemma_score_counts_lines(session, frames.drop_last());
        lemma_frame_score(after_frames(session, frames.drop_last()), frames.last());
    }
}

/// The running total after line clears of `lines[0]`, `lines[1]`, ... lines,
/// each scored as a lock scores it.
pub open spec fn score_after(start: int, lines: Seq<nat>) -> int
    decreases lines.len(),
{
    if lines.len() == 0 {
        start
    } else {
        score_after(start, lines.drop_last()) + LINE_SCORE * lines.last()
    }
}

/// The sum of the numbers.
pub open spec fn sum(lines: Seq<nat>) -> nat
    decreases lines.len(),
{
    if lines.len() == 0 {
        0
    } else {
        sum(lines.drop_last()) + lines.last()
    }
}

/// After any number of line clears the score is ten times the lines
/// cleared in all.
pub proof fn lemma_score_after(lines: Seq<nat>)
    ensures
        score_after(0, lines) == 10 * sum(lines),
    decreases lines.len(),
{
    if lines.len() > 0 {
        lemma_score_after(lines.drop_last());
    }
}

/// Game over is final: a session that is over comes out of every frame as
/// it went in.
pub proof fn lemma_game_over_is_final(session: SessionView, frame: Frame)
    requires
        session.game_over,
    ensures
        after_frame(session, frame.events, frame.next).0 == session,
{
}

/// A lock that reaches above the top row ends the game.
pub proof fn lemma_lock_above_ends_game(session: SessionView, next: BlockType)
    requires
        reaches_above(session.piece),
    ensures
        session.after_lock(next).game_over,
{
}

/// Whether `(col, row)` is one of the piece's cells.
pub open spec fn covers(piece: Tetromino, col: int, row: int) -> bool {
    exists|i: int| 0 <= i < 4 && #[trigger] piece.cell(i) == (col, row)
}

/// What a lock writes: on a grid of `cols` columns, every cell of the grid
/// that the piece covers holds the marker of its kind, every other cell
/// holds what it held, and the grid keeps its shape.
pub proof fn lemma_merged_cells(grid: Seq<Seq<Option<u8>>>, cols: int, piece: Tetromino)
    requires
        forall|r: int| 0 <= r < grid.len() ==> (#[trigger] grid[r]).len() == cols,
    ensures
        merged(grid, piece).len() == grid.len(),
        forall|r: int| 0 <= r < grid.len() ==> (#[trigger] merged(grid, piece)[r]).len() == cols,
        forall|r: int, c: int|
            0 <= r < grid.len() && 0 <= c < cols ==> #[trigger] cell_at(merged(grid, piece), r, c)
                == if covers(piece, c, r) {
                Some(piece.kind.index_spec() as u8)
            } else {
                cell_at(grid, r, c)
            },
{
    lemma_merged_upto(grid, cols, piece, 4);
}

/// What the first `n` writes of a lock leave in the grid.
proof fn lemma_merged_upto(grid: Seq<Seq<Option<u8>>>, cols: int, piece: Tetromino, n: int)
    requires
        0 <= n <= 4,
        forall|r: int| 0 <= r < grid.len() ==> (#[trigger] grid[r]).len() == cols,
    ensures
        merged_upto(grid, piece, n).len() == grid.len(),
        forall|r: int|
            0 <= r < grid.len() ==> (#[trigger] merged_upto(grid, piece, n)[r]).len() == cols,
        forall|r: int, c: int|
            0 <= r < grid.len() && 0 <= c < cols ==> #[trigger] cell_at(
                merged_upto(grid, piece, n),
                r,
                c,
            ) == if exists|i: int| 0 <= i < n && #[trigger] piece.cell(i) == (c, r) {
                Some(piece.kind.index_spec() as u8)
            } else {
                cell_at(grid, r, c)
            },
    decreases n,
{
    if n > 0 {
        lemma_merged_upto(grid, cols, piece, n - 1);
        let earlier = merged_upto(grid, piece, n - 1);
        let later = merged_upto(grid, piece, n);
        let last = piece.cell(n - 1);
        assert forall|r: int, c: int| 0 <= r < grid.len() && 0 <= c < cols implies #[trigger] cell_at(
            later,
            r,
            c,
        ) == if exists|i: int| 0 <= i < n && #[trigger] piece.cell(i) == (c, r) {
            Some(piece.kind.index_spec() as u8)
        } else {
            cell_at(grid, r, c)
        } by {
            if last == (c, r) {
                assert(piece.cell(n - 1) == (c, r));
            } else {
                assert(cell_at(later, r, c) == cell_at(earlier, r, c));
                if exists|i: int| 0 <= i < n && #[trigger] piece.cell(i) == (c, r) {
                    let i = choose|i: int| 0 <= i < n && #[trigger] piece.cell(i) == (c, r);
                    assert(0 <= i < n - 1 && piece.cell(i) == (c, r));
                }
            }
        }
    }
}

/// A piece that comes to rest on the board is locked whole: where it could
/// be placed and none of its cells lies above the top row, its four cells
/// are four different cells of the grid, all empty before the lock and all
/// filled after it.
pub proof fn lemma_lock_keeps_every_cell(grid: Seq<Seq<Option<u8>>>, cols: int, piece: Tetromino)
    requires
        piece.rotation < 4,
        forall|r: int| 0 <= r < grid.len() ==> (#[trigger] grid[r]).len() == cols,
        can_place(grid, cols, piece, 0, 0),
        !reaches_above(piece),
    ensures
        forall|i: int, j: int| 0 <= i < j < 4 ==> piece.cell(i) != piece.cell(j),
        forall|i: int|
            0 <= i < 4 ==> {
                let cell = #[trigger] piece.cell(i);
                &&& 0 <= cell.1 < grid.len()
                &&& 0 <= cell.0 < cols
                &&& cell_at(grid, cell.1, cell.0).is_none()
                &&& cell_at(merged(grid, piece), cell.1, cell.0) == Some(
                    piece.kind.index_spec() as u8,
                )
            },
{
    lemma_shape_table(piece.kind, piece.rotation as int);
    lemma_merged_cells(grid, cols, piece);
    let offsets = shape_offsets(piece.kind, piece.rotation as int);
    assert(pairwise_distinct(offsets));
    assert forall|i: int, j: int| 0 <= i < j < 4 implies piece.cell(i) != piece.cell(j) by {
        assert(offsets[i] != offsets[j]);
    }
    assert forall|i: int| 0 <= i < 4 implies {
        let cell = #[trigger] piece.cell(i);
        &&& 0 <= cell.1 < grid.len()
        &&& 0 <= cell.0 < cols
        &&& cell_at(grid, cell.1, cell.0).is_none()
        &&& cell_at(merged(grid, piece), cell.1, cell.0) == Some(piece.kind.index_spec() as u8)
    } by {
        let cell = piece.cell(i);
        assert(covers(piece, cell.0, cell.1));
    }
}

} // verus!
