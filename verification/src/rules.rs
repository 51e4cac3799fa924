//! Placement rules: where on a board a piece may stand.

use crate::blocks::{lemma_shape_table, shape_offsets, within_box, Tetromino};
use crate::board::{cell_at, Board};
use vstd::prelude::*;

verus! {

/// Whether a piece may occupy the absolute cell `(x, y)` of a grid `cols`
/// wide: the column is on the board, the row is not below the floor, and
/// the grid holds nothing there. Rows above the top are open: the grid reads
/// as empty outside itself.
pub open spec fn cell_open(grid: Seq<Seq<Option<u8>>>, cols: int, x: int, y: int) -> bool {
    &&& 0 <= x < cols
    &&& y < grid.len()
    &&& cell_at(grid, y, x).is_none()
}

/// Whether `piece`, displaced by `(dx, dy)`, may stand on the grid: each of
/// its four cells is open.
pub open spec fn can_place(
    grid: Seq<Seq<Option<u8>>>,
    cols: int,
    piece: Tetromino,
    dx: int,
    dy: int,
) -> bool {
    forall|i: int|
        0 <= i < 4 ==> cell_open(
            grid,
            cols,
            (#[trigger] piece.cell(i)).0 + dx,
            piece.cell(i).1 + dy,
        )
}

/// Checks whether the piece can move by `(dx, dy)` without leaving the board
/// sideways, passing the floor, or running into a filled cell.
pub fn can_move(board: &Board, tet: &Tetromino, dx: i32, dy: i32) -> (ok: bool)
    requires
        board.wf(),
        tet.wf(),
    ensures
        ok == can_place(board@, board.cols as int, *tet, dx as int, dy as int),
{
    let cells = tet.cells();
    let mut i: usize = 0;
    while i < 4
        invariant
            i <= 4,
            board.wf(),
            forall|k: int|
                0 <= k < 4 ==> (#[trigger] cells[k]).0 == tet.cell(k).0 && cells[k].1 == tet.cell(
                    k,
                ).1,
            forall|k: int|
                0 <= k < i ==> cell_open(
                    board@,
                    board.cols as int,
                    (#[trigger] tet.cell(k)).0 + dx,
                    tet.cell(k).1 + dy,
                ),
        decreases 4 - i,
    {
        let nx: i64 = cells[i].0 as i64 + dx as i64;
        let ny: i64 = cells[i].1 as i64 + dy as i64;
        assert(nx == tet.cell(i as int).0 + dx && ny == tet.cell(i as int).1 + dy);
        if nx < 0 || nx as u64 >= board.cols as u64 || (ny >= 0 && ny as u64 >= board.rows as u64) {
            return false;
        }
        if ny >= 0 {
            if board.get_cell(ny as usize, nx as usize).is_some() {
                return false;
            }
        }
        i += 1;
    }
    true
}

/// A placement that puts some cell of the piece left of column 0, at or
/// past the last column, or at or below the floor is refused.
pub proof fn lemma_out_of_bounds_refused(
    grid: Seq<Seq<Option<u8>>>,
    cols: int,
    piece: Tetromino,
    dx: int,
    dy: int,
    i: int,
)
    requires
        0 <= i < 4,
        piece.cell(i).0 + dx < 0 || piece.cell(i).0 + dx >= cols || piece.cell(i).1 + dy
            >= grid.len(),
    ensures
        !can_place(grid, cols, piece, dx, dy),
{
}

/// A placement whose cells all lie above the top row, in columns of the
/// board, is accepted whatever the grid holds.
pub proof fn lemma_above_grid_accepted(
    grid: Seq<Seq<Option<u8>>>,
    cols: int,
    piece: Tetromino,
    dx: int,
    dy: int,
)
    requires
        forall|i: int|
            0 <= i < 4 ==> 0 <= (#[trigger] piece.cell(i)).0 + dx < cols && piece.cell(i).1 + dy
                < 0,
    ensures
        can_place(grid, cols, piece, dx, dy),
{
}

/// A placement whose columns are all on the board and whose rows are all
/// above the floor is accepted exactly when none of its cells that lie on
/// the grid is filled; cells above the top row never stand in the way.
pub proof fn lemma_placement_by_overlap(
    grid: Seq<Seq<Option<u8>>>,
    cols: int,
    piece: Tetromino,
    dx: int,
    dy: int,
)
    requires
        forall|r: int| 0 <= r < grid.len() ==> (#[trigger] grid[r]).len() == cols,
        forall|i: int|
            0 <= i < 4 ==> 0 <= (#[trigger] piece.cell(i)).0 + dx < cols && piece.cell(i).1 + dy
                < grid.len(),
    ensures
        can_place(grid, cols, piece, dx, dy) <==> forall|i: int|
            0 <= i < 4 && (#[trigger] piece.cell(i)).1 + dy >= 0 ==> grid[piece.cell(i).1
                + dy][piece.cell(i).0 + dx].is_none(),
{
}

/// Every cell of a well-formed piece lies within three columns and three
/// rows of its origin.
pub proof fn lemma_cells_near_origin(piece: Tetromino)
    requires
        piece.rotation < 4,
    ensures
        forall|i: int|
            0 <= i < 4 ==> piece.x <= (#[trigger] piece.cell(i)).0 <= piece.x + 3 && piece.y
                <= piece.cell(i).1 <= piece.y + 3,
{
    lemma_shape_table(piece.kind, piece.rotation as int);
    let offsets = shape_offsets(piece.kind, piece.rotation as int);
    assert(within_box(offsets));
    assert forall|i: int| 0 <= i < 4 implies piece.x <= (#[trigger] piece.cell(i)).0 <= piece.x
        + 3 && piece.y <= piece.cell(i).1 <= piece.y + 3 by {
        assert(0 <= offsets[i].0 < 4 && 0 <= offsets[i].1 < 4);
    }
}

} // verus!
