use vstd::prelude::*;

use crate::cell::Cell;
use crate::world::alive_at;

verus! {

/// 1 where `(row, column)` holds a live cell of `grid`, else 0.
pub open spec fn live(grid: Seq<Seq<Cell>>, row: int, column: int) -> int {
    if alive_at(grid, row, column) {
        1
    } else {
        0
    }
}

/// The number of live cells among the eight positions around `(row, column)`.
/// A position outside the grid counts as no live cell.
pub open spec fn alive_count(grid: Seq<Seq<Cell>>, row: int, column: int) -> int {
    live(grid, row - 1, column - 1) + live(grid, row - 1, column) + live(grid, row - 1, column + 1)
        + live(grid, row, column - 1) + live(grid, row, column + 1)
        + live(grid, row + 1, column - 1) + live(grid, row + 1, column) + live(grid, row + 1, column + 1)
}

/// The life rule: a cell lives on with two live neighbours if it was alive, lives with
/// three in any case, and is dead otherwise.
pub open spec fn next_cell(current: Cell, count: int) -> Cell {
    if count == 3 || (current == Cell::Alive && count == 2) {
        Cell::Alive
    } else {
        Cell::Dead
    }
}

/// The grid of the following generation: same shape, every cell under the life rule.
pub open spec fn next_grid(grid: Seq<Seq<Cell>>) -> Seq<Seq<Cell>> {
    Seq::new(
        grid.len(),
        |r: int| Seq::new(grid[r].len(), |c: int| next_cell(grid[r][c], alive_count(grid, r, c))),
    )
}

} // verus!
