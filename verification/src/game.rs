//! The simulation engine: the board, the rule of life and the game that
//! advances it.

pub mod board;
pub mod cell;
pub mod chance;
pub mod error;
pub mod grid;
pub mod laws;
pub mod pattern;
pub mod render;

pub use board::CellBoard;
pub use error::{CellBoardCreationError, FormatErrorVariant};

use crate::utils::add_mod_n;
use cell::{cell_of_draw, Action, Cell, Slot};
use grid::{neighbor_offsets, Grid};
use pattern::{pattern_error, pattern_grid, texts};
use render::{append_decimal, decimal, grid_text};
use vstd::prelude::*;

verus! {

/// A board together with the number of generations it has lived through.
pub struct Game {
    generation: usize,
    cell_board: CellBoard,
}

/// Every entry of `actions` names a position of `grid`, stands at the place
/// at which that position is counted, and holds what the rule of life
/// decides for it on `grid`.
spec fn decided(grid: Grid, actions: Seq<(Slot, Action)>) -> bool {
    forall|k: int|
        0 <= k < actions.len() ==> {
            let (slot, action) = #[trigger] actions[k];
            &&& grid.contains(slot)
            &&& grid.index_of(slot) == k
            &&& action == grid.next_action(slot.0 as int, slot.1 as int)
        }
}

/// The cell at `slot` once the first `done` actions decided on `grid` have
/// been carried out: the cell of the next generation where the position is
/// counted before `done`, the cell of `grid` where it is not.
spec fn settled(grid: Grid, slot: Slot, done: int) -> Cell {
    if grid.index_of(slot) < done {
        grid.next_action(slot.0 as int, slot.1 as int).outcome()
    } else {
        grid.cell(slot.0 as int, slot.1 as int)
    }
}

/// Every entry of `cells` names a position of `grid`, stands at the place at
/// which that position is counted, and holds the cell that `grid` has there.
spec fn listed(grid: Grid, cells: Seq<(Slot, Cell)>) -> bool {
    forall|k: int|
        0 <= k < cells.len() ==> {
            let (slot, cell) = #[trigger] cells[k];
            &&& grid.contains(slot)
            &&& grid.index_of(slot) == k
            &&& cell == grid.cell(slot.0 as int, slot.1 as int)
        }
}

/// A game as text: the board, an empty line, and a line that names the
/// generation in decimal digits.
pub open spec fn game_text(grid: Grid, generation: nat) -> Seq<char> {
    grid_text(grid) + seq!['\n'] + "Generation: "@ + decimal(generation)
}

/// The height and the width of the board of `Game::default()`.
pub const DEFAULT_GAME_SIZE: usize = 8;

impl Default for Game {
    /// A game in generation 0 on a board of eight rows and eight columns,
    /// every cell of which is dead.
    fn default() -> (game: Self)
        ensures
            game.wf(),
            game.spec_generation() == 0,
            game.grid() == Grid::filled(
                DEFAULT_GAME_SIZE as nat,
                DEFAULT_GAME_SIZE as nat,
                Cell::Dead,
            ),
    {
        Self::new(DEFAULT_GAME_SIZE, DEFAULT_GAME_SIZE)
    }
}

impl Game {
    /// The board of this game as a mathematical value.
    pub closed spec fn grid(&self) -> Grid {
        self.cell_board@
    }

    /// The number of generations this game has lived through.
    pub closed spec fn spec_generation(&self) -> usize {
        self.generation
    }

    /// The board of the game is rectangular.
    pub open spec fn wf(&self) -> bool {
        self.grid().rectangular()
    }

    /// A game in generation 0 on a board of the given dimensions, every cell
    /// of which is dead.
    pub fn new(height: usize, width: usize) -> (game: Self)
        ensures
            game.wf(),
            game.spec_generation() == 0,
            game.grid() == Grid::filled(height as nat, width as nat, Cell::Dead),
    {
        Self { generation: 0, cell_board: CellBoard::new(height, width) }
    }

    /// Builds the game in generation 0 on the board that the lines of a
    /// pattern describe, or says what is wrong with the pattern.
    pub fn from_file(lines: &Vec<String>) -> (loaded: Result<Self, CellBoardCreationError>)
        ensures
            match loaded {
                Ok(game) => {
                    &&& pattern_error(texts(lines@)) is None
                    &&& game.wf()
                    &&& game.spec_generation() == 0
                    &&& game.grid() == pattern_grid(texts(lines@))
                },
                Err(error) => {
                    &&& pattern_error(texts(lines@)) is Some
                    &&& error == CellBoardCreationError::FormatError(
                        pattern_error(texts(lines@))->0,
                    )
                },
            },
    {
        match CellBoard::from_file(lines) {
            Ok(cell_board) => Ok(Self { generation: 0, cell_board }),
            Err(error) => Err(error),
        }
    }

    /// Sets every cell anew, each by a draw of its own that makes it alive
    /// with a chance of `numerator` in `denominator`.
    ///
    /// The dimensions and the generation stay as they are. A chance of zero
    /// leaves no cell alive and a chance of one leaves none dead; in between
    /// the board is whatever the draws made it.
    pub fn randomize(self, numerator: u32, denominator: u32) -> (game: Self)
        requires
            self.wf(),
            denominator > 0,
            numerator <= denominator,
        ensures
            game.wf(),
            game.grid().height == self.grid().height,
            game.grid().width == self.grid().width,
            game.spec_generation() == self.spec_generation(),
            numerator == 0 ==> game.grid() == Grid::filled(
                self.grid().height,
                self.grid().width,
                Cell::Dead,
            ),
            numerator == denominator ==> game.grid() == Grid::filled(
                self.grid().height,
                self.grid().width,
                Cell::Alive,
            ),
    {
        let ghost grid = self.grid();
        let height: usize = self.cell_board.height();
        let width: usize = self.cell_board.width();
        let mut draws: Vec<bool> = Vec::new();
        let mut row: usize = 0;
        assert(row * width == 0) by (nonlinear_arith)
            requires
                row == 0,
        ;
        while row < height
            invariant
                row <= height,
                denominator > 0,
                numerator <= denominator,
                draws.len() == row * width,
                forall|k: int|
                    0 <= k < draws.len() ==> (numerator == 0 ==> !#[trigger] draws[k]) && (numerator
                        == denominator ==> draws[k]),
            decreases height - row,
        {
            let mut col: usize = 0;
            while col < width
                invariant
                    col <= width,
                    denominator > 0,
                    numerator <= denominator,
                    draws.len() == row * width + col,
                    forall|k: int|
                        0 <= k < draws.len() ==> (numerator == 0 ==> !#[trigger] draws[k]) && (
                        numerator == denominator ==> draws[k]),
                decreases width - col,
            {
                draws.push(rand::random_ratio(numerator, denominator));
                col += 1;
            }
            assert(row * width + width == (row + 1) * width) by (nonlinear_arith);
            row += 1;
        }
        let game = self.randomize_with(&draws);
        proof {
            assert forall|r: int, c: int| 0 <= r < height && 0 <= c < width implies {
                &&& numerator == 0 ==> #[trigger] game.grid().cell(r, c) == Cell::Dead
                &&& numerator == denominator ==> game.grid().cell(r, c) == Cell::Alive
            } by {
                let slot = Slot(r as usize, c as usize);
                grid.lemma_index_in_range(slot);
            }
            if numerator == 0 {
                game.grid().lemma_same_cells(Grid::filled(grid.height, grid.width, Cell::Dead));
            }
            if numerator == denominator {
                game.grid().lemma_same_cells(Grid::filled(grid.height, grid.width, Cell::Alive));
            }
        }
        game
    }

    /// Sets every cell from a draw of its own: the cells are counted row
    /// after row, each row from its first column on, and a cell is alive
    /// where its draw is `true`.
    ///
    /// The dimensions and the generation stay as they are.
    pub fn randomize_with(self, draws: &Vec<bool>) -> (game: Self)
        requires
            self.wf(),
            draws.len() == self.grid().height * self.grid().width,
        ensures
            game.wf(),
            game.grid().height == self.grid().height,
            game.grid().width == self.grid().width,
            game.spec_generation() == self.spec_generation(),
            forall|row: int, col: int|
                0 <= row < self.grid().height && 0 <= col < self.grid().width
                    ==> #[trigger] game.grid().cell(row, col) == cell_of_draw(
                    draws[row * self.grid().width + col],
                ),
    {
        let ghost grid = self.grid();
        let ghost generation = self.spec_generation();
        let mut game = self;
        let height: usize = game.cell_board.height();
        let width: usize = game.cell_board.width();
        let mut next: usize = 0;
        let mut row: usize = 0;
        assert(row * width == 0) by (nonlinear_arith)
            requires
                row == 0,
        ;
        while row < height
            invariant
                game.wf(),
                game.spec_generation() == generation,
                game.grid().height == grid.height == height,
                game.grid().width == grid.width == width,
                draws.len() == grid.height * grid.width,
                row <= height,
                next == row * width,
                forall|r: int, c: int|
                    0 <= r < row && 0 <= c < width ==> #[trigger] game.grid().cell(r, c)
                        == cell_of_draw(draws[r * width + c]),
            decreases height - row,
        {
            let mut col: usize = 0;
            while col < width
                invariant
                    game.wf(),
                    game.spec_generation() == generation,
                    game.grid().height == grid.height == height,
                    game.grid().width == grid.width == width,
                    draws.len() == grid.height * grid.width,
                    row < height,
                    col <= width,
                    next == row * width + col,
                    forall|r: int, c: int|
                        (0 <= r < row && 0 <= c < width) || (r == row && 0 <= c < col)
                            ==> #[trigger] game.grid().cell(r, c) == cell_of_draw(
                            draws[r * width + c],
                        ),
                decreases width - col,
            {
                let ghost current = game.grid();
                let slot = Slot(row, col);
                proof {
                    grid.lemma_index_in_range(slot);
                }
                game.cell_board.set_slot(slot, Cell::from_draw(draws[next]));
                assert forall|r: int, c: int|
                    (0 <= r < row && 0 <= c < width) || (r == row && 0 <= c < col + 1)
                    implies #[trigger] game.grid().cell(r, c) == cell_of_draw(
                    draws[r * width + c],
                ) by {
                    if r != row || c != col {
                        assert(game.grid().cell(r, c) == current.cell(r, c));
                    }
                }
                next += 1;
                col += 1;
            }
            assert(row * width + width == (row + 1) * width) by (nonlinear_arith);
            row += 1;
        }
        game
    }

    /// Advances the game by one generation.
    ///
    /// The action of every cell is decided on the board as it stands before
    /// the call; only then are the actions carried out, so that no decision
    /// sees a cell of the coming generation.
    pub fn tick(&mut self)
        requires
            old(self).wf(),
            old(self).spec_generation() < usize::MAX,
        ensures
            final(self).wf(),
            final(self).grid() == old(self).grid().step(),
            final(self).spec_generation() == old(self).spec_generation() + 1,
    {
        let ghost before = self.grid();
        let height: usize = self.cell_board.height();
        let width: usize = self.cell_board.width();
        let mut actions_to_apply: Vec<(Slot, Action)> = Vec::new();
        let mut row: usize = 0;
        assert(row * width == 0) by (nonlinear_arith)
            requires
                row == 0,
        ;
        while row < height
            invariant
                self.grid() == before,
                self.spec_generation() == old(self).spec_generation(),
                before.rectangular(),
                height == before.height,
                width == before.width,
                row <= height,
                actions_to_apply.len() == row * width,
                decided(before, actions_to_apply@),
            decreases height - row,
        {
            let mut col: usize = 0;
            while col < width
                invariant
                    self.grid() == before,
                    self.spec_generation() == old(self).spec_generation(),
                    before.rectangular(),
                    height == before.height,
                    width == before.width,
                    row < height,
                    col <= width,
                    actions_to_apply.len() == row * width + col,
                    decided(before, actions_to_apply@),
                decreases width - col,
            {
                let slot = Slot(row, col);
                let action = self.get_action(slot);
                actions_to_apply.push((slot, action));
                col += 1;
            }
            assert(row * width + width == (row + 1) * width) by (nonlinear_arith);
            row += 1;
        }
        let mut done: usize = 0;
        while done < actions_to_apply.len()
            invariant
                self.spec_generation() == old(self).spec_generation(),
                before.rectangular(),
                self.grid().rectangular(),
                self.grid().height == before.height,
                self.grid().width == before.width,
                done <= actions_to_apply.len(),
                decided(before, actions_to_apply@),
                forall|slot: Slot| #[trigger]
                    before.contains(slot) ==> self.grid().cell(slot.0 as int, slot.1 as int)
                        == settled(before, slot, done as int),
            decreases actions_to_apply.len() - done,
        {
            let (slot, action) = actions_to_apply[done];
            self.cell_board.apply_to_slot(slot, action);
            assert forall|other: Slot| #[trigger] before.contains(other) implies self.grid().cell(
                other.0 as int,
                other.1 as int,
            ) == settled(before, other, done + 1) by {
                if before.index_of(other) == done {
                    before.lemma_index_injective(other, slot);
                }
            }
            done += 1;
        }
        proof {
            assert forall|row: int, col: int|
                0 <= row < before.height && 0 <= col < before.width implies #[trigger] self.grid().cell(
                row,
                col,
            ) == before.step().cell(row, col) by {
                let slot = Slot(row as usize, col as usize);
                assert(before.contains(slot));
                before.lemma_index_in_range(slot);
            }
            self.grid().lemma_same_cells(before.step());
        }
        self.generation += 1;
    }

    /// What the rule of life decides for the cell at `slot` on the board as
    /// it stands.
    pub fn get_action(&self, slot: Slot) -> (action: Action)
        requires
            self.wf(),
            self.grid().contains(slot),
        ensures
            action == self.grid().next_action(slot.0 as int, slot.1 as int),
    {
        let Slot(row, col) = slot;
        let offsets: [(i32, i32); 8] = [
            (0, 1),
            (-1, 1),
            (-1, 0),
            (-1, -1),
            (0, -1),
            (1, -1),
            (1, 0),
            (1, 1),
        ];
        assert(forall|k: int|
            0 <= k < 8 ==> (#[trigger] offsets[k]).0 == neighbor_offsets()[k].0 && offsets[k].1
                == neighbor_offsets()[k].1);
        let mut live_neighbors: usize = 0;
        for k in 0..8
            invariant
                self.wf(),
                self.grid().contains(slot),
                slot == Slot(row, col),
                forall|k: int|
                    0 <= k < 8 ==> (#[trigger] offsets[k]).0 == neighbor_offsets()[k].0
                        && offsets[k].1 == neighbor_offsets()[k].1,
                live_neighbors == self.grid().live_among(row as int, col as int, k as nat),
                live_neighbors <= k,
        {
            let (dy, dx) = offsets[k];
            let new_y: usize = add_mod_n(row, dy, self.cell_board.height());
            let new_x: usize = add_mod_n(col, dx, self.cell_board.width());
            if let Cell::Alive = self.cell_board.get_slot(Slot(new_y, new_x)) {
                live_neighbors += 1;
            }
        }
        proof {
            self.grid().lemma_live_among_all(row as int, col as int);
        }
        match self.cell_board.get_slot(slot) {
            Cell::Alive => if live_neighbors == 2 || live_neighbors == 3 {
                Action::Live
            } else {
                Action::Die
            },
            Cell::Dead => if live_neighbors == 3 {
                Action::Live
            } else {
                Action::Die
            },
        }
    }

    /// Sets the cell at `slot` as `action` says. Every other cell and the
    /// generation stay as they were.
    pub fn apply_action(&mut self, slot: Slot, action: Action)
        requires
            old(self).wf(),
            old(self).grid().contains(slot),
        ensures
            final(self).wf(),
            final(self).grid() == old(self).grid().with_cell(
                slot.0 as int,
                slot.1 as int,
                action.outcome(),
            ),
            final(self).spec_generation() == old(self).spec_generation(),
    {
        self.cell_board.apply_to_slot(slot, action);
    }

    /// The number of generations this game has lived through.
    #[verifier::when_used_as_spec(spec_generation)]
    pub fn generation(&self) -> (generation: usize)
        ensures
            generation == self.spec_generation(),
    {
        self.generation
    }

    /// Every position of the board with its cell, row after row and each
    /// row from its first column on.
    pub fn slots_and_cells(&self) -> (cells: Vec<(Slot, Cell)>)
        requires
            self.wf(),
        ensures
            cells.len() == self.grid().height * self.grid().width,
            forall|k: int|
                0 <= k < cells.len() ==> {
                    let (slot, cell) = #[trigger] cells[k];
                    &&& slot == self.grid().slot_at(k)
                    &&& self.grid().contains(slot)
                    &&& cell == self.grid().cell(slot.0 as int, slot.1 as int)
                },
            forall|row: int, col: int|
                0 <= row < self.grid().height && 0 <= col < self.grid().width ==> cells[row
                    * self.grid().width + col] == (
                    Slot(row as usize, col as usize),
                    #[trigger] self.grid().cell(row, col),
                ),
    {
        let ghost grid = self.grid();
        let height: usize = self.cell_board.height();
        let width: usize = self.cell_board.width();
        let mut cells: Vec<(Slot, Cell)> = Vec::new();
        let mut row: usize = 0;
        assert(row * width == 0) by (nonlinear_arith)
            requires
                row == 0,
        ;
        while row < height
            invariant
                grid == self.grid(),
                grid.rectangular(),
                height == grid.height,
                width == grid.width,
                row <= height,
                cells.len() == row * width,
                listed(grid, cells@),
            decreases height - row,
        {
            let mut col: usize = 0;
            while col < width
                invariant
                    grid == self.grid(),
                    grid.rectangular(),
                    height == grid.height,
                    width == grid.width,
                    row < height,
                    col <= width,
                    cells.len() == row * width + col,
                    listed(grid, cells@),
                decreases width - col,
            {
                let slot = Slot(row, col);
                cells.push((slot, self.cell_board.get_slot(slot)));
                col += 1;
            }
            assert(row * width + width == (row + 1) * width) by (nonlinear_arith);
            row += 1;
        }
        proof {
            assert forall|k: int| 0 <= k < cells.len() implies (#[trigger] cells[k]).0
                == grid.slot_at(k) by {
                grid.lemma_slot_at_index(cells[k].0);
            }
            assert forall|row: int, col: int|
                0 <= row < grid.height && 0 <= col < grid.width implies cells[row * grid.width
                + col] == (Slot(row as usize, col as usize), #[trigger] grid.cell(row, col)) by {
                let slot = Slot(row as usize, col as usize);
                grid.lemma_index_in_range(slot);
                let entry = cells[grid.index_of(slot)];
                grid.lemma_index_injective(entry.0, slot);
            }
        }
        cells
    }

    /// The game as text: the board, an empty line, and the generation.
    pub fn to_string(&self) -> (text: String)
        requires
            self.wf(),
        ensures
            text@ == game_text(self.grid(), self.spec_generation() as nat),
    {
        let mut string_representation = self.cell_board.to_string();
        proof {
            reveal_strlit("\n");
            reveal_strlit("Generation: ");
        }
        string_representation.append("\n");
        string_representation.append("Generation: ");
        append_decimal(&mut string_representation, self.generation);
        string_representation
    }

    /// The number of rows of the board.
    pub fn height(&self) -> (height: usize)
        ensures
            height == self.grid().height,
    {
        self.cell_board.height()
    }

    /// The number of cells in each row of the board.
    pub fn width(&self) -> (width: usize)
        ensures
            width == self.grid().width,
    {
        self.cell_board.width()
    }
}

} // verus!
