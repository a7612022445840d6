use vstd::prelude::*;

verus! {

/// The state of one square of the grid.
#[derive(PartialEq, Eq, Structural, Debug, Clone, Copy)]
pub enum Cell {
    Dead,
    Alive,
}

impl Cell {
    /// True exactly for `Cell::Alive`.
    pub fn is_alive(&self) -> (r: bool)
        ensures
            r == (*self == Cell::Alive),
    {
        match self {
            Cell::Alive => true,
            Cell::Dead => false,
        }
    }
}

} // verus!
