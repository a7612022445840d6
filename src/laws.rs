use vstd::prelude::*;

use crate::cell::Cell;
use crate::rules::{alive_count, next_grid};
use crate::world::alive_at;

verus! {

/// Whether every cell of `row` is dead.
pub open spec fn all_dead(row: Seq<Cell>) -> bool {
    forall|j: int| 0 <= j < row.len() ==> row[j] == Cell::Dead
}

/// Whether every cell of `grid` is dead.
pub open spec fn grid_all_dead(grid: Seq<Seq<Cell>>) -> bool {
    forall|i: int| 0 <= i < grid.len() ==> all_dead(#[trigger] grid[i])
}

/// `grid` with the row `top` above it, the row `bottom` below it, and one more cell
/// at each end of every one of its rows, those two cells dead.
pub open spec fn with_dead_border(grid: Seq<Seq<Cell>>, top: Seq<Cell>, bottom: Seq<Cell>) -> Seq<Seq<Cell>> {
    seq![top] + grid.map_values(|row: Seq<Cell>| seq![Cell::Dead] + row + seq![Cell::Dead]) + seq![bottom]
}

/// The grid `n` generations after `grid`.
pub open spec fn after(grid: Seq<Seq<Cell>>, n: nat) -> Seq<Seq<Cell>>
    decreases n,
{
    if n == 0 {
        grid
    } else {
        next_grid(after(grid, (n - 1) as nat))
    }
}

/// Cells outside the grid count as dead: surrounding a grid with a border of dead cells
/// leaves the next state of every one of its cells as it was, including the cells in
/// row 0, in column 0, and at the last index of a row or of the grid.
pub proof fn lemma_outside_counts_as_dead(grid: Seq<Seq<Cell>>, top: Seq<Cell>, bottom: Seq<Cell>)
    requires
        all_dead(top),
        all_dead(bottom),
    ensures
        forall|r: int, c: int|
            0 <= r < grid.len() && 0 <= c < grid[r].len() ==> #[trigger] next_grid(
                with_dead_border(grid, top, bottom),
            )[r + 1][c + 1] == next_grid(grid)[r][c],
{
    let framed = with_dead_border(grid, top, bottom);
    assert forall|r2: int, c2: int| #[trigger]
        alive_at(framed, r2, c2) == alive_at(grid, r2 - 1, c2 - 1) by {
        if 1 <= r2 <= grid.len() {
            assert(framed[r2] == seq![Cell::Dead] + grid[r2 - 1] + seq![Cell::Dead]);
        } else if r2 == 0 {
            assert(framed[r2] == top);
        } else if r2 == grid.len() + 1 {
            assert(framed[r2] == bottom);
        }
    }
    assert forall|r: int, c: int| 0 <= r < grid.len() && 0 <= c < grid[r].len() implies #[trigger] next_grid(
        framed,
    )[r + 1][c + 1] == next_grid(grid)[r][c] by {
        assert(alive_count(framed, r + 1, c + 1) == alive_count(grid, r, c));
        assert(framed[r + 1] == seq![Cell::Dead] + grid[r] + seq![Cell::Dead]);
    }
}

/// A grid of dead cells, of any shape, stays as it is for ever.
pub proof fn lemma_dead_grid_stays_dead(grid: Seq<Seq<Cell>>, n: nat)
    requires
        grid_all_dead(grid),
    ensures
        after(grid, n) == grid,
    decreases n,
{
    if n > 0 {
        lemma_dead_grid_stays_dead(grid, (n - 1) as nat);
        assert forall|r: int, c: int| #[trigger] alive_at(grid, r, c) == false by {
            if 0 <= r < grid.len() {
                assert(all_dead(grid[r]));
            }
        }
        assert forall|r: int| 0 <= r < grid.len() implies #[trigger] next_grid(grid)[r] =~= grid[r] by {
            assert(all_dead(grid[r]));
        }
        assert(next_grid(grid) =~= grid);
    }
}

/// The transition is not idempotent: some grid changes again in its second generation.
pub proof fn lemma_not_idempotent()
    ensures
        exists|grid: Seq<Seq<Cell>>| next_grid(next_grid(grid)) != next_grid(grid),
{
    let line = seq![seq![Cell::Alive, Cell::Alive, Cell::Alive]];
    let once = next_grid(line);
    assert(alive_count(line, 0, 1) == 2);
    assert(once[0][1] == Cell::Alive);
    assert(alive_count(once, 0, 1) == 0);
    assert(next_grid(once)[0][1] == Cell::Dead);
}

} // verus!
