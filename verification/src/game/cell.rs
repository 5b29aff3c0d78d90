//! Cells, the actions that set them, and their positions on the board.

use vstd::prelude::*;

verus! {

/// The state of one position of the board.
#[derive(Clone, Copy, Debug, PartialEq, Eq, Structural)]
pub enum Cell {
    Dead,
    Alive,
}

/// What becomes of a cell in the next generation.
#[derive(Clone, Copy, Debug, PartialEq, Eq, Structural)]
pub enum Action {
    Die,
    Live,
}

/// A position on the board: row first, then column.
#[derive(Debug, Clone, Copy, PartialEq, Eq, Hash, Structural)]
pub struct Slot(pub usize, pub usize);

/// The cell that a draw decides: alive for `true`, dead for `false`.
pub open spec fn cell_of_draw(alive: bool) -> Cell {
    if alive {
        Cell::Alive
    } else {
        Cell::Dead
    }
}

impl Action {
    /// The state in which this action leaves a cell, whatever it was before.
    pub open spec fn outcome(self) -> Cell {
        match self {
            Action::Die => Cell::Dead,
            Action::Live => Cell::Alive,
        }
    }
}

impl Cell {
    /// The cell that a draw decides: alive for `true`, dead for `false`.
    pub fn from_draw(alive: bool) -> (cell: Cell)
        ensures
            cell == cell_of_draw(alive),
    {
        if alive {
            Cell::Alive
        } else {
            Cell::Dead
        }
    }

    /// Sets this cell as `action` says.
    pub fn apply(&mut self, action: Action)
        ensures
            *final(self) == action.outcome(),
    {
        match action {
            Action::Die => *self = Cell::Dead,
            Action::Live => *self = Cell::Alive,
        }
    }
}

} // verus!
