//! The drawing plan of a frame: the pixel rectangles of the filled board
//! cells and of the visible cells of the active piece.

use crate::blocks::Tetromino;
use crate::board::Board;
use crate::game::{GameSession, SessionView};
use crate::overlay::{game_over_text, game_over_text_spec, score_text, score_text_spec};
use vstd::prelude::*;

verus! {

/// Side of a board cell, in pixels.
pub const CELL_SIZE: u32 = 32;

/// Width of the window that shows the standard board, in pixels.
pub const WINDOW_WIDTH: u32 = 320;

/// Height of the window that shows the standard board, in pixels.
pub const WINDOW_HEIGHT: u32 = 640;

/// A rectangle to fill, in pixels from the window's top left corner.
#[derive(Debug, Clone, Copy, PartialEq, Eq, Structural)]
pub struct PixelRect {
    pub x: i32,
    pub y: i32,
    pub width: u32,
    pub height: u32,
}

/// The rectangle of the board cell at `(col, row)`: the grid coordinates
/// times the cell size.
pub open spec fn cell_rect_spec(col: int, row: int) -> PixelRect
    recommends
        0 <= col * CELL_SIZE <= i32::MAX,
        0 <= row * CELL_SIZE <= i32::MAX,
{
    PixelRect {
        x: (col * CELL_SIZE) as i32,
        y: (row * CELL_SIZE) as i32,
        width: CELL_SIZE,
        height: CELL_SIZE,
    }
}

/// The pixel coordinates of every cell of a board this size are
/// representable.
pub open spec fn drawable(rows: int, cols: int) -> bool {
    &&& rows * CELL_SIZE <= i32::MAX
    &&& cols * CELL_SIZE <= i32::MAX
}

/// Whether every cell of a board this size can be drawn.
pub fn is_drawable(rows: usize, cols: usize) -> (ok: bool)
    ensures
        ok == drawable(rows as int, cols as int),
{
    rows <= (i32::MAX as usize) / (CELL_SIZE as usize) && cols <= (i32::MAX as usize) / (
    CELL_SIZE as usize)
}

/// The rectangles of the filled cells among the first `n` of row `r`, from
/// left to right.
pub open spec fn row_rects(row: Seq<Option<u8>>, r: int, n: int) -> Seq<PixelRect>
    decreases n,
{
    if n <= 0 {
        Seq::empty()
    } else if row[n - 1].is_some() {
        row_rects(row, r, n - 1).push(cell_rect_spec(n - 1, r))
    } else {
        row_rects(row, r, n - 1)
    }
}

/// The rectangles of the filled cells of the first `n` rows, row by row
/// from the top.
pub open spec fn grid_rects(grid: Seq<Seq<Option<u8>>>, n: int) -> Seq<PixelRect>
    decreases n,
{
    if n <= 0 {
        Seq::empty()
    } else {
        grid_rects(grid, n - 1) + row_rects(grid[n - 1], n - 1, grid[n - 1].len() as int)
    }
}

/// The rectangles of those among the first `n` cells of the piece that lie
/// on a board of `rows` by `cols` cells, in table order.
pub open spec fn visible_rects(piece: Tetromino, rows: int, cols: int, n: int) -> Seq<PixelRect>
    decreases n,
{
    if n <= 0 {
        Seq::empty()
    } else if 0 <= piece.cell(n - 1).0 < cols && 0 <= piece.cell(n - 1).1 < rows {
        visible_rects(piece, rows, cols, n - 1).push(
            cell_rect_spec(piece.cell(n - 1).0, piece.cell(n - 1).1),
        )
    } else {
        visible_rects(piece, rows, cols, n - 1)
    }
}

/// The rectangle of the board cell at `(col, row)`.
pub fn cell_rect(col: usize, row: usize) -> (rect: PixelRect)
    requires
        col * CELL_SIZE <= i32::MAX,
        row * CELL_SIZE <= i32::MAX,
    ensures
        rect == cell_rect_spec(col as int, row as int),
{
    PixelRect {
        x: (col as i32) * (CELL_SIZE as i32),
        y: (row as i32) * (CELL_SIZE as i32),
        width: CELL_SIZE,
        height: CELL_SIZE,
    }
}

/// The rectangles of the board's filled cells, row by row from the top and
/// from left to right within a row.
pub fn board_rects(board: &Board) -> (rects: Vec<PixelRect>)
    requires
        board.wf(),
        drawable(board.rows as int, board.cols as int),
    ensures
        rects@ == grid_rects(board@, board.rows as int),
{
    let mut rects: Vec<PixelRect> = Vec::new();
    let mut row: usize = 0;
    while row < board.rows
        invariant
            board.wf(),
            drawable(board.rows as int, board.cols as int),
            row <= board.rows,
            rects@ == grid_rects(board@, row as int),
        decreases board.rows - row,
    {
        let ghost above = rects@;
        let mut col: usize = 0;
        while col < board.cols
            invariant
                board.wf(),
                drawable(board.rows as int, board.cols as int),
                row < board.rows,
                col <= board.cols,
                rects@ == above + row_rects(board@[row as int], row as int, col as int),
            decreases board.cols - col,
        {
            if board.get_cell(row, col).is_some() {
                rects.push(cell_rect(col, row));
            }
            col += 1;
        }
        row += 1;
    }
    rects
}

/// The rectangles of the piece's cells that lie on the board, in table
/// order.
pub fn piece_rects(board: &Board, piece: &Tetromino) -> (rects: Vec<PixelRect>)
    requires
        board.wf(),
        piece.wf(),
        drawable(board.rows as int, board.cols as int),
    ensures
        rects@ == visible_rects(*piece, board.rows as int, board.cols as int, 4),
{
    let cells = piece.cells();
    let mut rects: Vec<PixelRect> = Vec::new();
    let mut i: usize = 0;
    while i < 4
        invariant
            i <= 4,
            drawable(board.rows as int, board.cols as int),
            forall|k: int|
                0 <= k < 4 ==> (#[trigger] cells[k]).0 == piece.cell(k).0 && cells[k].1
                    == piece.cell(k).1,
            rects@ == visible_rects(*piece, board.rows as int, board.cols as int, i as int),
        decreases 4 - i,
    {
        let x: i32 = cells[i].0;
        let y: i32 = cells[i].1;
        assert(x == piece.cell(i as int).0 && y == piece.cell(i as int).1);
        if y >= 0 && x >= 0 && (y as usize) < board.rows && (x as usize) < board.cols {
            rects.push(cell_rect(x as usize, y as usize));
        }
        i += 1;
    }
    rects
}

/// A colour: red, green, blue and opacity.
#[derive(Debug, Clone, Copy, PartialEq, Eq, Structural)]
pub struct Rgba {
    pub r: u8,
    pub g: u8,
    pub b: u8,
    pub a: u8,
}

/// A rectangle to fill and the colour to fill it with.
#[derive(Debug, Clone, Copy, PartialEq, Eq, Structural)]
pub struct Fill {
    pub color: Rgba,
    pub rect: PixelRect,
}

/// The colour of the cells that have locked into the board: opaque white.
pub open spec fn locked_color() -> Rgba {
    Rgba { r: 255, g: 255, b: 255, a: 255 }
}

/// The colour of the veil drawn over the board once the game is over:
/// black, letting some of the board show through.
pub open spec fn veil_color() -> Rgba {
    Rgba { r: 0, g: 0, b: 0, a: 180 }
}

/// The rectangles, each to be filled with the colour.
pub open spec fn painted(rects: Seq<PixelRect>, color: Rgba) -> Seq<Fill> {
    Seq::new(rects.len(), |i: int| Fill { color, rect: rects[i] })
}

/// The colour of the words that announce the end of the game: red.
pub open spec fn banner_color() -> Rgba {
    Rgba { r: 255, g: 0, b: 0, a: 255 }
}

/// The veil: the whole window in the veil's colour.
pub open spec fn veil() -> Fill {
    Fill {
        color: veil_color(),
        rect: PixelRect { x: 0, y: 0, width: WINDOW_WIDTH, height: WINDOW_HEIGHT },
    }
}

/// What is painted over a finished game: the veil, the words "GAME OVER",
/// and the score in the colour of the locked cells.
pub open spec fn overlay_fills(score: nat) -> Seq<Fill> {
    seq![veil()] + painted(game_over_text_spec(), banner_color()) + painted(
        score_text_spec(score),
        locked_color(),
    )
}

/// What a frame paints over its background, in drawing order: the locked
/// cells, then the visible cells of the active piece in `piece_color`, then
/// the overlay if the game is over.
pub open spec fn frame_fills_spec(session: SessionView, piece_color: Rgba) -> Seq<Fill> {
    painted(grid_rects(session.grid, session.grid.len() as int), locked_color()) + painted(
        visible_rects(session.piece, session.grid.len() as int, session.cols, 4),
        piece_color,
    ) + if session.game_over {
        overlay_fills(session.score as nat)
    } else {
        Seq::empty()
    }
}

/// Appends the rectangles to the plan, each with the colour.
fn paint(plan: &mut Vec<Fill>, rects: &Vec<PixelRect>, color: Rgba)
    ensures
        final(plan)@ == old(plan)@ + painted(rects@, color),
{
    let mut i: usize = 0;
    while i < rects.len()
        invariant
            i <= rects.len(),
            plan@ == old(plan)@ + painted(rects@.take(i as int), color),
        decreases rects.len() - i,
    {
        plan.push(Fill { color, rect: rects[i] });
        i += 1;
    }
    proof {
        assert(rects@.take(i as int) == rects@);
    }
}

/// The drawing plan of a frame: what to fill, in order, over a cleared
/// background.
pub fn frame_fills(session: &GameSession) -> (plan: Vec<Fill>)
    requires
        session.wf(),
        drawable(session.board.rows as int, session.board.cols as int),
    ensures
        plan@ == frame_fills_spec(session@, (Rgba { r: 255, g: 255, b: 255, a: 255 })),
{
    let white = Rgba { r: 255, g: 255, b: 255, a: 255 };
    let mut plan: Vec<Fill> = Vec::new();
    let locked = board_rects(&session.board);
    paint(&mut plan, &locked, white);
    let (r, g, b) = session.current.color();
    let falling = piece_rects(&session.board, &session.current);
    paint(&mut plan, &falling, Rgba { r, g, b, a: 255 });
    if session.game_over {
        let ghost below = plan@;
        plan.push(
            Fill {
                color: Rgba { r: 0, g: 0, b: 0, a: 180 },
                rect: PixelRect { x: 0, y: 0, width: WINDOW_WIDTH, height: WINDOW_HEIGHT },
            },
        );
        let banner = game_over_text();
        paint(&mut plan, &banner, Rgba { r: 255, g: 0, b: 0, a: 255 });
        let score = score_text(session.score);
        paint(&mut plan, &score, white);
        assert(plan@ == below + overlay_fills(session.score as nat));
    }
    plan
}

} // verus!
