//! The two-valued state of one grid position.

use vstd::prelude::*;

verus! {

/// One grid position's binary state: empty or populated.
///
/// A cell has no identity beyond its state; it is copied and compared by
/// value.
#[derive(Debug, Clone, Copy, PartialEq, Eq, Structural)]
pub enum Cell {
    Empty,
    Populated,
}

impl Cell {
    /// Returns a new populated cell.
    pub fn populated() -> (cell: Self)
        ensures
            cell == Cell::Populated,
    {
        Cell::Populated
    }

    /// Returns true if the cell is empty (unpopulated).
    pub fn is_empty(&self) -> (empty: bool)
        ensures
            empty == (*self is Empty),
    {
        match self {
            Cell::Empty => true,
            Cell::Populated => false,
        }
    }

    /// Returns true if the cell is populated.
    pub fn is_populated(&self) -> (populated: bool)
        ensures
            populated == (*self is Populated),
    {
        match self {
            Cell::Empty => false,
            Cell::Populated => true,
        }
    }

    /// Makes the cell empty, whatever its state was before.
    pub fn die(&mut self)
        ensures
            *final(self) == Cell::Empty,
    {
        *self = Cell::Empty;
    }

    /// Makes the cell populated, whatever its state was before.
    pub fn spawn(&mut self)
        ensures
            *final(self) == Cell::Populated,
    {
        *self = Cell::Populated;
    }
}

impl Default for Cell {
    /// A cell starts out empty.
    fn default() -> (cell: Self)
        ensures
            cell == Cell::Empty,
    {
        Cell::Empty
    }
}

/// Law: emptiness and population are mutually exclusive and exhaustive;
/// every cell is in exactly one of the two states.
pub proof fn lemma_cell_empty_xor_populated(cell: Cell)
    ensures
        (cell is Empty) <==> !(cell is Populated),
{
}

} // verus!
