use vstd::prelude::*;

mod cell;
mod laws;
mod rules;
mod world;

pub use crate::cell::Cell;
pub use crate::laws::{
    after, all_dead, grid_all_dead, lemma_dead_grid_stays_dead, lemma_not_idempotent,
    lemma_outside_counts_as_dead, with_dead_border,
};
pub use crate::rules::{alive_count, live, next_cell, next_grid};
pub use crate::world::{alive_at, World};

verus! {

/// Advances a world by one generation of Conway's Game of Life.
pub struct Automaton {}

impl Automaton {
    pub fn new() -> Automaton {
        Automaton {}
    }

    /// The next generation of `world`: every cell is recomputed from the old grid,
    /// the shape of the grid is kept, and the generation counter goes up by one.
    pub fn create_next_generation(&self, world: World) -> (r: World)
        requires
            world.generation < u32::MAX,
        ensures
            r.generation == world.generation + 1,
            r.cells().len() == world.cells().len(),
            forall|i: int| 0 <= i < r.cells().len() ==> r.cells()[i].len() == world.cells()[i].len(),
            r.cells() == next_grid(world.cells()),
    {
        let ghost old_cells = world.cells();
        let mut next: Vec<Vec<Cell>> = Vec::new();
        let mut row_index: usize = 0;
        while row_index < world.grid.len()
            invariant
                old_cells == world.cells(),
                row_index <= world.grid@.len(),
                next@.len() == row_index,
                forall|r: int| 0 <= r < row_index ==> next@[r]@ == next_grid(old_cells)[r],
            decreases world.grid@.len() - row_index,
        {
            let row = &world.grid[row_index];
            let mut next_row: Vec<Cell> = Vec::new();
            let mut column_index: usize = 0;
            while column_index < row.len()
                invariant
                    old_cells == world.cells(),
                    row_index < world.grid@.len(),
                    *row == world.grid@[row_index as int],
                    column_index <= row@.len(),
                    next_row@.len() == column_index,
                    forall|c: int|
                        0 <= c < column_index ==> next_row@[c] == next_cell(
                            old_cells[row_index as int][c],
                            alive_count(old_cells, row_index as int, c),
                        ),
                decreases row@.len() - column_index,
            {
                let count = self.count_alive_moore_neighbourhood(&world, row_index, column_index);
                let cell = self.create_new_cell(&row[column_index], count);
                next_row.push(cell);
                column_index += 1;
            }
            assert(next_row@ =~= next_grid(old_cells)[row_index as int]);
            next.push(next_row);
            row_index += 1;
        }
        let r = World::new(world.generation + 1, next);
        assert(r.cells() =~= next_grid(old_cells));
        r
    }

    /// 1 where the given position exists and holds a live cell of `world`, else 0.
    fn alive_neighbour(&self, world: &World, row: Option<usize>, column: Option<usize>) -> (r: u8)
        ensures
            r == (if row is Some && column is Some {
                live(world.cells(), row->0 as int, column->0 as int)
            } else {
                0
            }),
    {
        if let (Some(row_index), Some(column_index)) = (row, column) {
            if let Some(cell) = world.get_cell_at(row_index, column_index) {
                if cell.is_alive() {
                    return 1;
                }
            }
        }
        0
    }

    /// The number of live cells among the eight neighbours of `(row_index, column_index)`.
    /// A neighbour whose index would fall below zero or past `usize::MAX` is not looked up;
    /// one that the grid does not hold counts as nothing.
    fn count_alive_moore_neighbourhood(&self, world: &World, row_index: usize, column_index: usize) -> (r: u8)
        ensures
            r == alive_count(world.cells(), row_index as int, column_index as int),
            r <= 8,
    {
        let above = row_index.checked_sub(1);
        let below = row_index.checked_add(1);
        let left = column_index.checked_sub(1);
        let right = column_index.checked_add(1);
        let here_row = Some(row_index);
        let here_column = Some(column_index);

        proof {
            // Neither the grid nor any of its rows is longer than `usize::MAX`.
            assert(world.cells().len() == world.grid.len());
            assert forall|i: int| 0 <= i < world.cells().len() implies world.cells()[i].len()
                == world.grid@[i].len() by {}
        }
        let mut alive_cells_count: u8 = 0;
        alive_cells_count += self.alive_neighbour(world, above, left);
        alive_cells_count += self.alive_neighbour(world, above, here_column);
        alive_cells_count += self.alive_neighbour(world, above, right);
        alive_cells_count += self.alive_neighbour(world, here_row, left);
        alive_cells_count += self.alive_neighbour(world, here_row, right);
        alive_cells_count += self.alive_neighbour(world, below, left);
        alive_cells_count += self.alive_neighbour(world, below, here_column);
        alive_cells_count += self.alive_neighbour(world, below, right);
        alive_cells_count
    }

    /// The state of a cell in the next generation, from its state now and its live
    /// neighbour count.
    fn create_new_cell(&self, current_cell: &Cell, alive_neighbourhood_count: u8) -> (r: Cell)
        ensures
            r == next_cell(*current_cell, alive_neighbourhood_count as int),
    {
        match alive_neighbourhood_count {
            2 if current_cell.is_alive() => Cell::Alive,
            3 => Cell::Alive,
            _ => Cell::Dead,
        }
    }
}

} // verus!
