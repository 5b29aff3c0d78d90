//! The mathematical model of a board and of the rule of life on a torus.

use crate::game::cell::{Action, Cell, Slot};
use crate::utils::wrap;
use vstd::arithmetic::div_mod::lemma_fundamental_div_mod_converse;
use vstd::prelude::*;

verus! {

/// A board as a mathematical value: its dimensions and its rows of cells.
pub struct Grid {
    pub height: nat,
    pub width: nat,
    pub rows: Seq<Seq<Cell>>,
}

/// The rule of life for one cell with `live_neighbors` living neighbours: a
/// living cell survives with two or three of them, a dead cell comes to life
/// with exactly three, and every other cell is dead in the next generation.
pub open spec fn rule(cell: Cell, live_neighbors: nat) -> Action {
    match cell {
        Cell::Alive => if live_neighbors == 2 || live_neighbors == 3 {
            Action::Live
        } else {
            Action::Die
        },
        Cell::Dead => if live_neighbors == 3 {
            Action::Live
        } else {
            Action::Die
        },
    }
}

impl Grid {
    /// There are `height` rows and each of them has `width` cells.
    pub open spec fn rectangular(self) -> bool {
        &&& self.rows.len() == self.height
        &&& forall|row: int|
            0 <= row < self.height ==> (#[trigger] self.rows[row]).len() == self.width
    }

    /// `slot` names a position of this grid.
    pub open spec fn contains(self, slot: Slot) -> bool {
        slot.0 < self.height && slot.1 < self.width
    }

    /// The cell in row `row` and column `col`.
    pub open spec fn cell(self, row: int, col: int) -> Cell {
        self.rows[row][col]
    }

    /// The grid of the given dimensions in which every cell is `cell`.
    pub open spec fn filled(height: nat, width: nat, cell: Cell) -> Grid {
        Grid {
            height,
            width,
            rows: Seq::new(height, |_row: int| Seq::new(width, |_col: int| cell)),
        }
    }

    /// The place of `slot` when the cells are counted row by row, each row
    /// from its first column on.
    pub open spec fn index_of(self, slot: Slot) -> int {
        slot.0 * self.width + slot.1
    }

    /// The position that is counted at place `index`.
    pub open spec fn slot_at(self, index: int) -> Slot {
        Slot((index / self.width as int) as usize, (index % self.width as int) as usize)
    }

    /// This grid with the cell at (`row`, `col`) replaced by `cell`.
    pub open spec fn with_cell(self, row: int, col: int, cell: Cell) -> Grid {
        Grid {
            height: self.height,
            width: self.width,
            rows: self.rows.update(row, self.rows[row].update(col, cell)),
        }
    }

    /// 1 if the cell that lies `dy` rows and `dx` columns from (`row`, `col`)
    /// is alive, 0 if it is dead. Rows wrap around the height and columns
    /// around the width, each on its own.
    pub open spec fn live_at(self, row: int, col: int, dy: int, dx: int) -> nat {
        if self.cell(wrap(row, dy, self.height as int), wrap(col, dx, self.width as int))
            == Cell::Alive {
            1
        } else {
            0
        }
    }

    /// The number of living cells among the eight neighbours of (`row`, `col`).
    pub open spec fn live_neighbors(self, row: int, col: int) -> nat {
        self.live_at(row, col, 0, 1)
            + self.live_at(row, col, -1, 1)
            + self.live_at(row, col, -1, 0)
            + self.live_at(row, col, -1, -1)
            + self.live_at(row, col, 0, -1)
            + self.live_at(row, col, 1, -1)
            + self.live_at(row, col, 1, 0)
            + self.live_at(row, col, 1, 1)
    }

    /// What the rule of life decides for the cell at (`row`, `col`).
    pub open spec fn next_action(self, row: int, col: int) -> Action {
        rule(self.cell(row, col), self.live_neighbors(row, col))
    }

    /// The next generation: every cell is what the rule decides for it on
    /// this grid, all of them at once.
    pub open spec fn step(self) -> Grid {
        Grid {
            height: self.height,
            width: self.width,
            rows: Seq::new(
                self.height,
                |row: int| Seq::new(self.width, |col: int| self.next_action(row, col).outcome()),
            ),
        }
    }

    /// The grid `count` generations later.
    pub open spec fn steps(self, count: nat) -> Grid
        decreases count,
    {
        if count == 0 {
            self
        } else {
            self.step().steps((count - 1) as nat)
        }
    }

    /// Two rectangular grids of the same dimensions that hold the same cell
    /// at every position are the same grid.
    pub proof fn lemma_same_cells(self, other: Grid)
        requires
            self.rectangular(),
            other.rectangular(),
            self.height == other.height,
            self.width == other.width,
            forall|row: int, col: int|
                0 <= row < self.height && 0 <= col < self.width ==> #[trigger] self.cell(row, col)
                    == other.cell(row, col),
        ensures
            self == other,
    {
        assert forall|row: int, col: int|
            0 <= row < self.height && 0 <= col < self.width implies #[trigger] self.rows[row][col]
            == other.rows[row][col] by {
            assert(self.cell(row, col) == other.cell(row, col));
        }
        assert(self.rows =~~= other.rows);
    }

    /// A position of the grid is counted before the grid's size is reached.
    pub proof fn lemma_index_in_range(self, slot: Slot)
        requires
            self.contains(slot),
        ensures
            0 <= self.index_of(slot) < self.height * self.width,
    {
        let (row, col, height, width) = (
            slot.0 as int,
            slot.1 as int,
            self.height as int,
            self.width as int,
        );
        assert(0 <= row * width && row * width + col < height * width) by (nonlinear_arith)
            requires
                0 <= row < height,
                0 <= col < width,
        ;
    }

    /// A position of the grid is the position at the place at which it is
    /// counted.
    pub proof fn lemma_slot_at_index(self, slot: Slot)
        requires
            self.contains(slot),
        ensures
            self.slot_at(self.index_of(slot)) == slot,
    {
        lemma_fundamental_div_mod_converse(
            self.index_of(slot),
            self.width as int,
            slot.0 as int,
            slot.1 as int,
        );
    }

    /// Two positions of the grid that are counted at the same place are the
    /// same position.
    pub proof fn lemma_index_injective(self, a: Slot, b: Slot)
        requires
            self.contains(a),
            self.contains(b),
            self.index_of(a) == self.index_of(b),
        ensures
            a == b,
    {
        let (ra, ca, rb, cb, width) = (
            a.0 as int,
            a.1 as int,
            b.0 as int,
            b.1 as int,
            self.width as int,
        );
        assert(ra == rb) by (nonlinear_arith)
            requires
                0 <= ca < width,
                0 <= cb < width,
                ra * width + ca == rb * width + cb,
        ;
    }
}

/// The offsets (rows, columns) of the eight neighbours of a cell, in the
/// order in which they are counted.
pub open spec fn neighbor_offsets() -> Seq<(int, int)> {
    seq![(0, 1), (-1, 1), (-1, 0), (-1, -1), (0, -1), (1, -1), (1, 0), (1, 1)]
}

impl Grid {
    /// The number of living cells among the first `count` neighbours of
    /// (`row`, `col`).
    pub open spec fn live_among(self, row: int, col: int, count: nat) -> nat
        decreases count,
    {
        if count == 0 {
            0
        } else {
            let (dy, dx) = neighbor_offsets()[count - 1];
            self.live_among(row, col, (count - 1) as nat) + self.live_at(row, col, dy, dx)
        }
    }

    /// Counting all eight neighbours one after the other gives the number of
    /// living neighbours.
    pub proof fn lemma_live_among_all(self, row: int, col: int)
        ensures
            self.live_among(row, col, 8) == self.live_neighbors(row, col),
    {
        reveal_with_fuel(Grid::live_among, 9);
    }
}

} // verus!
