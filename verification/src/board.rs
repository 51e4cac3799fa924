//! The playing field: a fixed grid of cells, each empty or filled with the
//! marker of the kind that locked there, and the removal of full lines.

use vstd::prelude::*;

verus! {

/// A row in which every cell is filled. A row without cells counts as full.
pub open spec fn row_full(row: Seq<Option<u8>>) -> bool {
    forall|j: int| 0 <= j < row.len() ==> (#[trigger] row[j]).is_some()
}

/// A row of `cols` empty cells.
pub open spec fn empty_row(cols: nat) -> Seq<Option<u8>> {
    Seq::new(cols, |j: int| None)
}

/// `count` empty rows of `cols` cells each.
pub open spec fn empty_rows(count: nat, cols: nat) -> Seq<Seq<Option<u8>>> {
    Seq::new(count, |i: int| empty_row(cols))
}

/// The rows that a line clear keeps: those that are not full, in the order
/// in which they stand.
pub open spec fn survivors(grid: Seq<Seq<Option<u8>>>) -> Seq<Seq<Option<u8>>> {
    grid.filter(survives())
}

/// The test that a row passes to survive a line clear: it is not full.
pub open spec fn survives() -> spec_fn(Seq<Option<u8>>) -> bool {
    |row: Seq<Option<u8>>| !row_full(row)
}

/// How many rows of the grid are full.
pub open spec fn full_row_count(grid: Seq<Seq<Option<u8>>>) -> nat {
    (grid.len() - survivors(grid).len()) as nat
}

/// The grid after a line clear: the surviving rows moved to the bottom, in
/// the order in which they stood, below as many empty rows as there were
/// full ones.
pub open spec fn cleared(grid: Seq<Seq<Option<u8>>>, cols: nat) -> Seq<Seq<Option<u8>>> {
    empty_rows(full_row_count(grid), cols) + survivors(grid)
}

/// `full` is a row of the grid, it is full, and no other row is.
pub open spec fn only_full_row(grid: Seq<Seq<Option<u8>>>, full: int) -> bool {
    &&& 0 <= full < grid.len()
    &&& row_full(grid[full])
    &&& forall|i: int| 0 <= i < grid.len() && i != full ==> !row_full(#[trigger] grid[i])
}

/// No row of the grid is full.
pub open spec fn no_full_row(grid: Seq<Seq<Option<u8>>>) -> bool {
    forall|i: int| 0 <= i < grid.len() ==> !row_full(#[trigger] grid[i])
}

/// Bounds-checked read: what the grid holds at `(row, col)`, and empty
/// anywhere outside it.
pub open spec fn cell_at(grid: Seq<Seq<Option<u8>>>, row: int, col: int) -> Option<u8> {
    if 0 <= row < grid.len() && 0 <= col < grid[row].len() {
        grid[row][col]
    } else {
        None
    }
}

/// The grid with `(row, col)` set to `value`; the same grid where that cell
/// lies outside it.
pub open spec fn with_cell(
    grid: Seq<Seq<Option<u8>>>,
    row: int,
    col: int,
    value: Option<u8>,
) -> Seq<Seq<Option<u8>>> {
    if 0 <= row < grid.len() && 0 <= col < grid[row].len() {
        grid.update(row, grid[row].update(col, value))
    } else {
        grid
    }
}

/// The board: `rows` by `cols` cells, row 0 at the top.
#[derive(Debug, Clone)]
pub struct Board {
    pub rows: usize,
    pub cols: usize,
    /// `None` is an empty cell, `Some(n)` one filled by a piece of kind `n`.
    pub grid: Vec<Vec<Option<u8>>>,
}

impl View for Board {
    type V = Seq<Seq<Option<u8>>>;

    open spec fn view(&self) -> Seq<Seq<Option<u8>>> {
        Seq::new(self.grid.len() as nat, |i: int| self.grid[i]@)
    }
}

/// A fresh row of `cols` empty cells.
fn blank_row(cols: usize) -> (row: Vec<Option<u8>>)
    ensures
        row@ == empty_row(cols as nat),
{
    let mut row: Vec<Option<u8>> = Vec::with_capacity(cols);
    let mut j: usize = 0;
    while j < cols
        invariant
            j <= cols,
            row@ == empty_row(j as nat),
        decreases cols - j,
    {
        row.push(None);
        j += 1;
    }
    row
}

/// Whether every cell of the row is filled.
fn is_full(row: &Vec<Option<u8>>) -> (full: bool)
    ensures
        full == row_full(row@),
{
    let mut j: usize = 0;
    while j < row.len()
        invariant
            j <= row.len(),
            forall|k: int| 0 <= k < j ==> (#[trigger] row@[k]).is_some(),
        decreases row.len() - j,
    {
        if row[j].is_none() {
            return false;
        }
        j += 1;
    }
    true
}

/// A copy of the row.
fn copy_row(row: &Vec<Option<u8>>) -> (copy: Vec<Option<u8>>)
    ensures
        copy@ == row@,
{
    let mut copy: Vec<Option<u8>> = Vec::with_capacity(row.len());
    let mut j: usize = 0;
    while j < row.len()
        invariant
            j <= row.len(),
            copy@ == row@.take(j as int),
        decreases row.len() - j,
    {
        copy.push(row[j]);
        j += 1;
    }
    copy
}

impl Board {
    /// The grid has `rows` rows of `cols` cells each.
    pub open spec fn wf(&self) -> bool {
        &&& self.grid.len() == self.rows
        &&& forall|i: int| 0 <= i < self.grid.len() ==> (#[trigger] self.grid[i]).len() == self.cols
    }

    /// Whether the board is well formed.
    pub fn is_wf(&self) -> (ok: bool)
        ensures
            ok == self.wf(),
    {
        if self.grid.len() != self.rows {
            return false;
        }
        let mut i: usize = 0;
        while i < self.grid.len()
            invariant
                i <= self.grid.len(),
                self.grid.len() == self.rows,
                forall|k: int| 0 <= k < i ==> (#[trigger] self.grid[k]).len() == self.cols,
            decreases self.grid.len() - i,
        {
            if self.grid[i].len() != self.cols {
                return false;
            }
            i += 1;
        }
        true
    }

    /// An empty board of the given size.
    pub fn new(rows: u32, cols: u32) -> (board: Board)
        ensures
            board.wf(),
            board.rows == rows,
            board.cols == cols,
            board@ == empty_rows(rows as nat, cols as nat),
    {
        let mut grid: Vec<Vec<Option<u8>>> = Vec::with_capacity(rows as usize);
        let mut i: u32 = 0;
        while i < rows
            invariant
                i <= rows,
                grid.len() == i,
                forall|k: int| 0 <= k < i ==> (#[trigger] grid[k])@ == empty_row(cols as nat),
            decreases rows - i,
        {
            grid.push(blank_row(cols as usize));
            i += 1;
        }
        Board { rows: rows as usize, cols: cols as usize, grid }
    }

    /// Bounds-checked read: empty outside the grid.
    pub fn get_cell(&self, row: usize, col: usize) -> (cell: Option<u8>)
        requires
            self.wf(),
        ensures
            cell == cell_at(self@, row as int, col as int),
    {
        if row < self.rows && col < self.cols {
            self.grid[row][col]
        } else {
            None
        }
    }

    /// Bounds-checked write: nothing happens outside the grid.
    pub fn set_cell(&mut self, row: usize, col: usize, value: Option<u8>)
        requires
            old(self).wf(),
        ensures
            final(self).wf(),
            final(self).rows == old(self).rows,
            final(self).cols == old(self).cols,
            final(self)@ == with_cell(old(self)@, row as int, col as int, value),
    {
        if row < self.rows && col < self.cols {
            self.grid[row][col] = value;
        }
    }

    /// Removes every full row in one pass over the grid. The rows that stay
    /// keep their order and sink to the bottom; empty rows fill the top.
    /// Returns how many rows were removed.
    pub fn clear_full_lines(&mut self) -> (count: usize)
        requires
            old(self).wf(),
        ensures
            final(self).wf(),
            final(self).rows == old(self).rows,
            final(self).cols == old(self).cols,
            count == full_row_count(old(self)@),
            final(self)@ == cleared(old(self)@, old(self).cols as nat),
            no_full_row(old(self)@) ==> count == 0 && final(self)@ == old(self)@,
            forall|full: int| #[trigger]
                only_full_row(old(self)@, full) ==> {
                    &&& count == 1
                    &&& final(self)@[0] == empty_row(old(self).cols as nat)
                    &&& forall|i: int| 0 < i <= full ==> final(self)@[i] == old(self)@[i - 1]
                    &&& forall|i: int|
                        full < i < old(self).rows ==> final(self)@[i] == old(self)@[i]
                },
    {
        let ghost before = self@;
        let ghost cols = self.cols as nat;
        let mut new_grid: Vec<Vec<Option<u8>>> = Vec::with_capacity(self.rows);
        let mut count: usize = 0;
        let mut i: usize = 0;
        while i < self.grid.len()
            invariant
                self.wf(),
                self@ == before,
                self.cols == cols,
                i <= self.grid.len(),
                count + new_grid.len() == i,
                Seq::new(new_grid.len() as nat, |k: int| new_grid[k]@) == survivors(
                    before.take(i as int),
                ),
                forall|k: int| 0 <= k < new_grid.len() ==> (#[trigger] new_grid[k]).len() == cols,
            decreases self.grid.len() - i,
        {
            proof {
                assert(before.take(i + 1) == before.take(i as int).push(before[i as int]));
                lemma_survivors_push(before.take(i as int), before[i as int]);
            }
            if is_full(&self.grid[i]) {
                count += 1;
            } else {
                new_grid.push(copy_row(&self.grid[i]));
            }
            i += 1;
        }
        proof {
            assert(before.take(i as int) == before);
        }
        let ghost kept = survivors(before);
        while new_grid.len() < self.rows
            invariant
                self.wf(),
                self@ == before,
                self.cols == cols,
                kept == survivors(before),
                kept.len() <= new_grid.len() <= self.rows,
                Seq::new(new_grid.len() as nat, |k: int| new_grid[k]@) == empty_rows(
                    (new_grid.len() - kept.len()) as nat,
                    cols,
                ) + kept,
                forall|k: int| 0 <= k < new_grid.len() ==> (#[trigger] new_grid[k]).len() == cols,
            decreases self.rows - new_grid.len(),
        {
            let ghost shorter = Seq::new(new_grid.len() as nat, |k: int| new_grid[k]@);
            new_grid.insert(0, blank_row(self.cols));
            proof {
                let longer = Seq::new(new_grid.len() as nat, |k: int| new_grid[k]@);
                assert(longer == seq![empty_row(cols)] + shorter);
                assert(longer == empty_rows((new_grid.len() - kept.len()) as nat, cols) + kept);
            }
        }
        self.grid = new_grid;
        proof {
            if no_full_row(before) {
                lemma_clear_nothing(before, cols);
            }
            assert forall|full: int| #[trigger] only_full_row(before, full) implies {
                &&& count == 1
                &&& self@[0] == empty_row(cols)
                &&& forall|i: int| 0 < i <= full ==> self@[i] == before[i - 1]
                &&& forall|i: int| full < i < before.len() ==> self@[i] == before[i]
            } by {
                lemma_clear_single(before, cols, full);
            }
        }
        count
    }
}

/// Whether a row survives decides what appending it does to the survivors.
pub proof fn lemma_survivors_push(grid: Seq<Seq<Option<u8>>>, row: Seq<Option<u8>>)
    ensures
        survivors(grid.push(row)) == if row_full(row) {
            survivors(grid)
        } else {
            survivors(grid).push(row)
        },
        survivors(grid).len() <= grid.len(),
{
    grid.lemma_filter_push(row, survives());
    grid.lemma_filter_len(survives());
}

/// A line clear removes no more rows than the grid has.
pub proof fn lemma_survivors_bound(grid: Seq<Seq<Option<u8>>>)
    ensures
        survivors(grid).len() <= grid.len(),
        full_row_count(grid) <= grid.len(),
{
    grid.lemma_filter_len(survives());
}

/// Where no row is full, every row survives.
pub proof fn lemma_survivors_all(grid: Seq<Seq<Option<u8>>>)
    requires
        forall|i: int| 0 <= i < grid.len() ==> !row_full(#[trigger] grid[i]),
    ensures
        survivors(grid) == grid,
    decreases grid.len(),
{
    if grid.len() == 0 {
        lemma_survivors_empty();
        assert(grid == Seq::<Seq<Option<u8>>>::empty());
    } else {
        let front = grid.drop_last();
        lemma_survivors_all(front);
        lemma_survivors_push(front, grid.last());
        assert(front.push(grid.last()) == grid);
    }
}

/// A grid without rows has no survivors.
pub proof fn lemma_survivors_empty()
    ensures
        survivors(Seq::<Seq<Option<u8>>>::empty()) == Seq::<Seq<Option<u8>>>::empty(),
{
    Seq::<Seq<Option<u8>>>::empty().lemma_filter_len(survives());
    assert(survivors(Seq::<Seq<Option<u8>>>::empty()).len() == 0);
}

/// The survivors of two grids stacked are the survivors of each, stacked.
pub proof fn lemma_survivors_concat(upper: Seq<Seq<Option<u8>>>, lower: Seq<Seq<Option<u8>>>)
    ensures
        survivors(upper + lower) == survivors(upper) + survivors(lower),
{
    Seq::filter_distributes_over_add(upper, lower, survives());
}

/// A line clear on a board without a full row removes nothing and leaves
/// the grid as it was.
pub proof fn lemma_clear_nothing(grid: Seq<Seq<Option<u8>>>, cols: nat)
    requires
        no_full_row(grid),
    ensures
        full_row_count(grid) == 0,
        cleared(grid, cols) == grid,
{
    lemma_survivors_all(grid);
    assert(empty_rows(0, cols) + grid == grid);
}

/// A line clear on a board whose only full row is `full` removes one row:
/// the top row comes out empty, every row above `full` moves one row down,
/// and every row below it stays where it was.
pub proof fn lemma_clear_single(grid: Seq<Seq<Option<u8>>>, cols: nat, full: int)
    requires
        only_full_row(grid, full),
    ensures
        full_row_count(grid) == 1,
        cleared(grid, cols).len() == grid.len(),
        cleared(grid, cols)[0] == empty_row(cols),
        forall|c: int| 0 <= c < cols ==> cell_at(cleared(grid, cols), 0, c).is_none(),
        forall|i: int| 0 < i <= full ==> cleared(grid, cols)[i] == grid[i - 1],
        forall|i: int| full < i < grid.len() ==> cleared(grid, cols)[i] == grid[i],
{
    let upper = grid.take(full);
    let lower = grid.skip(full + 1);
    let middle = seq![grid[full]];
    assert(grid == upper + middle + lower);
    lemma_survivors_all(upper);
    lemma_survivors_all(lower);
    lemma_survivors_empty();
    lemma_survivors_push(Seq::<Seq<Option<u8>>>::empty(), grid[full]);
    assert(Seq::<Seq<Option<u8>>>::empty().push(grid[full]) == middle);
    lemma_survivors_concat(upper, middle);
    lemma_survivors_concat(upper + middle, lower);
    assert(survivors(grid) == upper + lower);
}

} // verus!
