use vstd::prelude::*;

verus! {

/// The state of one square of the grid.
#[derive(Clone, Copy, PartialEq, Eq, Debug, Structural)]
pub enum Cell {
    Dead,
    Alive,
}

impl Cell {
    /// The other state: `Alive` for `Dead` and `Dead` for `Alive`.
    pub open spec fn flipped(self) -> Cell {
        match self {
            Cell::Dead => Cell::Alive,
            Cell::Alive => Cell::Dead,
        }
    }

    /// One for a live cell, zero for a dead one.
    pub open spec fn weight(self) -> int {
        match self {
            Cell::Dead => 0,
            Cell::Alive => 1,
        }
    }

    /// Returns the other state.
    pub fn flip(self) -> (r: Cell)
        ensures
            r == self.flipped(),
    {
        match self {
            Cell::Dead => Cell::Alive,
            Cell::Alive => Cell::Dead,
        }
    }
}

impl std::ops::Not for Cell {
    type Output = Cell;

    fn not(self) -> (r: Cell) {
        self.flip()
    }
}

impl vstd::std_specs::ops::NotSpecImpl for Cell {
    open spec fn obeys_not_spec() -> bool {
        true
    }

    open spec fn not_req(self) -> bool {
        true
    }

    open spec fn not_spec(self) -> Cell {
        self.flipped()
    }
}

impl Default for Cell {
    /// A fresh cell is alive.
    fn default() -> (r: Cell)
        ensures
            r == Cell::Alive,
    {
        Cell::Alive
    }
}

} // verus!
