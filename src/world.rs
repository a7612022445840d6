use vstd::prelude::*;

use crate::cell::Cell;

verus! {

/// One generation of the automaton: its index and its rows of cells.
///
/// Rows may differ in length; nothing outside the stored rows exists.
pub struct World {
    pub generation: u32,
    pub grid: Vec<Vec<Cell>>,
}

/// Whether position `(row, column)` lies inside `grid` and holds a live cell.
/// Positions with a negative index, or beyond the extent of their row, are not alive.
pub open spec fn alive_at(grid: Seq<Seq<Cell>>, row: int, column: int) -> bool {
    &&& 0 <= row < grid.len()
    &&& 0 <= column < grid[row].len()
    &&& grid[row][column] == Cell::Alive
}

impl World {
    /// The grid as a sequence of rows, each a sequence of cells.
    pub open spec fn cells(&self) -> Seq<Seq<Cell>> {
        self.grid@.map_values(|row: Vec<Cell>| row@)
    }

    /// Whether `(row, column)` names a stored cell.
    pub open spec fn has_cell(&self, row: int, column: int) -> bool {
        &&& 0 <= row < self.grid@.len()
        &&& 0 <= column < self.grid@[row]@.len()
    }

    pub fn new(generation: u32, grid: Vec<Vec<Cell>>) -> (r: World)
        ensures
            r.generation == generation,
            r.grid@ == grid@,
            r.cells() == grid@.map_values(|row: Vec<Cell>| row@),
    {
        World { generation, grid }
    }

    /// The cell at `(row_index, column_index)`, or `None` where the grid has no such
    /// row, or that row has no such column.
    pub fn get_cell_at(&self, row_index: usize, column_index: usize) -> (r: Option<&Cell>)
        ensures
            r is Some <==> self.has_cell(row_index as int, column_index as int),
            r matches Some(c) ==> *c == self.cells()[row_index as int][column_index as int],
    {
        if row_index < self.grid.len() {
            let row = &self.grid[row_index];
            if column_index < row.len() {
                return Some(&row[column_index]);
            }
        }
        None
    }
}

} // verus!
