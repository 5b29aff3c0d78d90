//! Laws of the simulation, proved over the mathematical model of the board.

use crate::game::cell::Cell;
use crate::game::grid::Grid;
use crate::utils::{lemma_wrap_in_range, lemma_wrap_twice, lemma_wrap_unit_step, wrap};
use vstd::prelude::*;

verus! {

/// `index` is `start` or the position after it on a ring of `modulus`
/// positions.
pub open spec fn in_pair(index: int, start: int, modulus: int) -> bool {
    index == start || index == wrap(start, 1, modulus)
}

/// `index` is `centre`, the position before it or the position after it on a
/// ring of `modulus` positions.
pub open spec fn in_triple(index: int, centre: int, modulus: int) -> bool {
    index == wrap(centre, -1, modulus) || index == centre || index == wrap(centre, 1, modulus)
}

impl Grid {
    /// Every cell of the grid is dead.
    pub open spec fn all_dead(self) -> bool {
        forall|row: int, col: int|
            0 <= row < self.height && 0 <= col < self.width ==> self.cell(row, col) == Cell::Dead
    }

    /// This grid seen from `dy` rows and `dx` columns further on: the cell
    /// at a position of the result is the cell that this grid has `dy` rows
    /// and `dx` columns from that position, around the edges.
    pub open spec fn shifted(self, dy: int, dx: int) -> Grid {
        Grid {
            height: self.height,
            width: self.width,
            rows: Seq::new(
                self.height,
                |row: int|
                    Seq::new(
                        self.width,
                        |col: int|
                            self.cell(
                                wrap(row, dy, self.height as int),
                                wrap(col, dx, self.width as int),
                            ),
                    ),
            ),
        }
    }

    /// The living cells are exactly the four cells of the square whose upper
    /// left corner is (`top`, `left`); the square may reach across an edge.
    pub open spec fn is_block(self, top: int, left: int) -> bool {
        forall|row: int, col: int|
            0 <= row < self.height && 0 <= col < self.width ==> (self.cell(row, col) == Cell::Alive
                <==> in_pair(row, top, self.height as int) && in_pair(col, left, self.width as int))
    }

    /// The living cells are exactly the three cells of row `row` around
    /// column `col`; the three may reach across an edge.
    pub open spec fn is_flat_blinker(self, row: int, col: int) -> bool {
        forall|r: int, c: int|
            0 <= r < self.height && 0 <= c < self.width ==> (self.cell(r, c) == Cell::Alive <==> r
                == row && in_triple(c, col, self.width as int))
    }

    /// The living cells are exactly the three cells of column `col` around
    /// row `row`; the three may reach across an edge.
    pub open spec fn is_upright_blinker(self, row: int, col: int) -> bool {
        forall|r: int, c: int|
            0 <= r < self.height && 0 <= c < self.width ==> (self.cell(r, c) == Cell::Alive <==> c
                == col && in_triple(r, row, self.height as int))
    }
}

/// A generation keeps the dimensions of the grid and leaves it rectangular.
pub proof fn lemma_step_keeps_shape(grid: Grid)
    ensures
        grid.step().rectangular(),
        grid.step().height == grid.height,
        grid.step().width == grid.width,
{
}

/// Any number of generations keeps the dimensions of a rectangular grid and
/// leaves it rectangular.
pub proof fn lemma_steps_keep_shape(grid: Grid, count: nat)
    requires
        grid.rectangular(),
    ensures
        grid.steps(count).rectangular(),
        grid.steps(count).height == grid.height,
        grid.steps(count).width == grid.width,
    decreases count,
{
    if count > 0 {
        lemma_step_keeps_shape(grid);
        lemma_steps_keep_shape(grid.step(), (count - 1) as nat);
    }
}

/// Generations add up: `first + second` generations are `first` of them
/// followed by `second` more.
pub proof fn lemma_steps_add(grid: Grid, first: nat, second: nat)
    ensures
        grid.steps(first + second) == grid.steps(first).steps(second),
    decreases first,
{
    if first > 0 {
        lemma_steps_add(grid.step(), (first - 1) as nat, second);
    }
}

/// An oscillator comes back for ever: a grid that is itself again after
/// `period` generations is itself again after any number of such rounds.
pub proof fn lemma_period_repeats(grid: Grid, period: nat, rounds: nat)
    requires
        grid.steps(period) == grid,
    ensures
        grid.steps(period * rounds) == grid,
    decreases rounds,
{
    if rounds > 0 {
        lemma_period_repeats(grid, period, (rounds - 1) as nat);
        assert(period * rounds == period * (rounds - 1) + period) by (nonlinear_arith);
        lemma_steps_add(grid, period * (rounds - 1) as nat, period);
    } else {
        assert(period * rounds == 0) by (nonlinear_arith)
            requires
                rounds == 0,
        ;
    }
}

/// A neighbour of a cell of the shifted grid is the neighbour, at the same
/// offset, of the cell that was shifted there.
proof fn lemma_shifted_neighbor(grid: Grid, dy: int, dx: int, row: int, col: int, a: int, b: int)
    requires
        grid.rectangular(),
        0 <= row < grid.height,
        0 <= col < grid.width,
    ensures
        grid.shifted(dy, dx).live_at(row, col, a, b) == grid.live_at(
            wrap(row, dy, grid.height as int),
            wrap(col, dx, grid.width as int),
            a,
            b,
        ),
{
    let (height, width) = (grid.height as int, grid.width as int);
    lemma_wrap_in_range(row, a, height);
    lemma_wrap_in_range(col, b, width);
    lemma_wrap_twice(row, a, dy, height);
    lemma_wrap_twice(row, dy, a, height);
    lemma_wrap_twice(col, b, dx, width);
    lemma_wrap_twice(col, dx, b, width);
}

/// The torus has no edge and no corner: a generation of the shifted grid is
/// the shifted generation of the grid.
pub proof fn lemma_step_commutes_with_shift(grid: Grid, dy: int, dx: int)
    requires
        grid.rectangular(),
    ensures
        grid.shifted(dy, dx).step() == grid.step().shifted(dy, dx),
{
    let (height, width) = (grid.height as int, grid.width as int);
    let moved = grid.shifted(dy, dx);
    assert forall|row: int, col: int| 0 <= row < height && 0 <= col < width implies #[trigger] moved.step().cell(
        row,
        col,
    ) == grid.step().shifted(dy, dx).cell(row, col) by {
        lemma_wrap_in_range(row, dy, height);
        lemma_wrap_in_range(col, dx, width);
        lemma_shifted_neighbor(grid, dy, dx, row, col, 0, 1);
        lemma_shifted_neighbor(grid, dy, dx, row, col, -1, 1);
        lemma_shifted_neighbor(grid, dy, dx, row, col, -1, 0);
        lemma_shifted_neighbor(grid, dy, dx, row, col, -1, -1);
        lemma_shifted_neighbor(grid, dy, dx, row, col, 0, -1);
        lemma_shifted_neighbor(grid, dy, dx, row, col, 1, -1);
        lemma_shifted_neighbor(grid, dy, dx, row, col, 1, 0);
        lemma_shifted_neighbor(grid, dy, dx, row, col, 1, 1);
    }
    moved.step().lemma_same_cells(grid.step().shifted(dy, dx));
}

/// A grid that is the same after one generation is the same after any
/// number of generations.
pub proof fn lemma_fixed_point_forever(grid: Grid, count: nat)
    requires
        grid.step() == grid,
    ensures
        grid.steps(count) == grid,
    decreases count,
{
    if count > 0 {
        lemma_fixed_point_forever(grid, (count - 1) as nat);
    }
}

/// On a grid without a living cell every cell has no living neighbour.
proof fn lemma_dead_grid_has_no_neighbors(grid: Grid, row: int, col: int)
    requires
        grid.rectangular(),
        grid.all_dead(),
        0 <= row < grid.height,
        0 <= col < grid.width,
    ensures
        grid.live_neighbors(row, col) == 0,
{
    let (height, width) = (grid.height as int, grid.width as int);
    lemma_wrap_in_range(row, -1, height);
    lemma_wrap_in_range(row, 0, height);
    lemma_wrap_in_range(row, 1, height);
    lemma_wrap_in_range(col, -1, width);
    lemma_wrap_in_range(col, 0, width);
    lemma_wrap_in_range(col, 1, width);
}

/// Stasis of the empty board: a rectangular grid without a living cell is
/// the same after any number of generations.
pub proof fn lemma_dead_grid_stays_dead(grid: Grid, count: nat)
    requires
        grid.rectangular(),
        grid.all_dead(),
    ensures
        grid.steps(count) == grid,
{
    assert forall|row: int, col: int|
        0 <= row < grid.height && 0 <= col < grid.width implies #[trigger] grid.step().cell(
        row,
        col,
    ) == grid.cell(row, col) by {
        lemma_dead_grid_has_no_neighbors(grid, row, col);
    }
    grid.step().lemma_same_cells(grid);
    lemma_fixed_point_forever(grid, count);
}

/// The grid on which every cell is dead is the same after any number of
/// generations.
pub proof fn lemma_filled_dead_stays_dead(height: nat, width: nat, count: nat)
    ensures
        Grid::filled(height, width, Cell::Dead).steps(count) == Grid::filled(
            height,
            width,
            Cell::Dead,
        ),
{
    lemma_dead_grid_stays_dead(Grid::filled(height, width, Cell::Dead), count);
}

/// One generation leaves every cell of a block pattern as it is.
proof fn lemma_block_cell_is_still(grid: Grid, top: int, left: int, row: int, col: int)
    requires
        grid.rectangular(),
        grid.height >= 4,
        grid.width >= 4,
        0 <= top < grid.height,
        0 <= left < grid.width,
        grid.is_block(top, left),
        0 <= row < grid.height,
        0 <= col < grid.width,
    ensures
        grid.next_action(row, col).outcome() == grid.cell(row, col),
{
    let (height, width) = (grid.height as int, grid.width as int);
    lemma_wrap_unit_step(row, height);
    lemma_wrap_unit_step(col, width);
    lemma_wrap_unit_step(top, height);
    lemma_wrap_unit_step(left, width);
}

/// The block is a still life: on a rectangular grid of at least four rows
/// and four columns whose living cells are exactly a square of two by two,
/// wherever it lies, any number of generations changes nothing.
pub proof fn lemma_block_is_still_life(grid: Grid, top: int, left: int, count: nat)
    requires
        grid.rectangular(),
        grid.height >= 4,
        grid.width >= 4,
        0 <= top < grid.height,
        0 <= left < grid.width,
        grid.is_block(top, left),
    ensures
        grid.steps(count) == grid,
{
    assert forall|row: int, col: int|
        0 <= row < grid.height && 0 <= col < grid.width implies #[trigger] grid.step().cell(
        row,
        col,
    ) == grid.cell(row, col) by {
        lemma_block_cell_is_still(grid, top, left, row, col);
    }
    grid.step().lemma_same_cells(grid);
    lemma_fixed_point_forever(grid, count);
}

/// One generation turns every cell of a flat blinker into the cell of the
/// upright blinker around the same centre.
proof fn lemma_flat_blinker_cell(grid: Grid, row: int, col: int, r: int, c: int)
    requires
        grid.rectangular(),
        grid.height >= 4,
        grid.width >= 4,
        0 <= row < grid.height,
        0 <= col < grid.width,
        grid.is_flat_blinker(row, col),
        0 <= r < grid.height,
        0 <= c < grid.width,
    ensures
        grid.next_action(r, c).outcome() == Cell::Alive <==> c == col && in_triple(
            r,
            row,
            grid.height as int,
        ),
{
    let (height, width) = (grid.height as int, grid.width as int);
    lemma_wrap_unit_step(row, height);
    lemma_wrap_unit_step(col, width);
    lemma_wrap_unit_step(r, height);
    lemma_wrap_unit_step(c, width);
}

/// One generation turns every cell of an upright blinker into the cell of
/// the flat blinker around the same centre.
proof fn lemma_upright_blinker_cell(grid: Grid, row: int, col: int, r: int, c: int)
    requires
        grid.rectangular(),
        grid.height >= 4,
        grid.width >= 4,
        0 <= row < grid.height,
        0 <= col < grid.width,
        grid.is_upright_blinker(row, col),
        0 <= r < grid.height,
        0 <= c < grid.width,
    ensures
        grid.next_action(r, c).outcome() == Cell::Alive <==> r == row && in_triple(
            c,
            col,
            grid.width as int,
        ),
{
    let (height, width) = (grid.height as int, grid.width as int);
    lemma_wrap_unit_step(row, height);
    lemma_wrap_unit_step(col, width);
    lemma_wrap_unit_step(r, height);
    lemma_wrap_unit_step(c, width);
}

/// On a rectangular grid of at least four rows and four columns, one
/// generation turns a flat blinker into the upright blinker around the same
/// centre, and an upright blinker into the flat one.
pub proof fn lemma_blinker_turns(grid: Grid, row: int, col: int)
    requires
        grid.rectangular(),
        grid.height >= 4,
        grid.width >= 4,
        0 <= row < grid.height,
        0 <= col < grid.width,
    ensures
        grid.is_flat_blinker(row, col) ==> grid.step().is_upright_blinker(row, col),
        grid.is_upright_blinker(row, col) ==> grid.step().is_flat_blinker(row, col),
{
    if grid.is_flat_blinker(row, col) {
        assert forall|r: int, c: int| 0 <= r < grid.height && 0 <= c < grid.width implies (
        grid.step().cell(r, c) == Cell::Alive <==> c == col && in_triple(
            r,
            row,
            grid.height as int,
        )) by {
            lemma_flat_blinker_cell(grid, row, col, r, c);
        }
    }
    if grid.is_upright_blinker(row, col) {
        assert forall|r: int, c: int| 0 <= r < grid.height && 0 <= c < grid.width implies (
        grid.step().cell(r, c) == Cell::Alive <==> r == row && in_triple(
            c,
            col,
            grid.width as int,
        )) by {
            lemma_upright_blinker_cell(grid, row, col, r, c);
        }
    }
}

/// Two rectangular grids of the same dimensions with the same living cells
/// are the same grid.
proof fn lemma_same_living_cells(a: Grid, b: Grid)
    requires
        a.rectangular(),
        b.rectangular(),
        a.height == b.height,
        a.width == b.width,
        forall|r: int, c: int|
            0 <= r < a.height && 0 <= c < a.width ==> (a.cell(r, c) == Cell::Alive <==> b.cell(r, c)
                == Cell::Alive),
    ensures
        a == b,
{
    a.lemma_same_cells(b);
}

/// Two rectangular grids of the same dimensions that are blinkers of the
/// same kind around the same centre are the same grid.
proof fn lemma_same_blinker(a: Grid, b: Grid, row: int, col: int)
    requires
        a.rectangular(),
        b.rectangular(),
        a.height == b.height,
        a.width == b.width,
        a.is_flat_blinker(row, col) && b.is_flat_blinker(row, col) || a.is_upright_blinker(row, col)
            && b.is_upright_blinker(row, col),
    ensures
        a == b,
{
    lemma_same_living_cells(a, b);
}

/// On a grid of at least four rows and four columns a flat blinker and the
/// upright blinker around the same centre differ.
proof fn lemma_blinkers_differ(a: Grid, b: Grid, row: int, col: int)
    requires
        a.height == b.height,
        a.width == b.width,
        a.height >= 4,
        a.width >= 4,
        0 <= row < a.height,
        0 <= col < a.width,
        a.is_flat_blinker(row, col) && b.is_upright_blinker(row, col) || a.is_upright_blinker(
            row,
            col,
        ) && b.is_flat_blinker(row, col),
    ensures
        a != b,
{
    let (height, width) = (a.height as int, a.width as int);
    lemma_wrap_unit_step(row, height);
    lemma_wrap_unit_step(col, width);
    let beside = wrap(col, 1, width);
    assert(a.cell(row, beside) != b.cell(row, beside));
}

/// The blinker is an oscillator of period two: on a rectangular grid of at
/// least four rows and four columns whose living cells are exactly three in
/// a row, or three in a column, the second generation is the grid itself
/// and the first is not.
pub proof fn lemma_blinker_has_period_two(grid: Grid, row: int, col: int)
    requires
        grid.rectangular(),
        grid.height >= 4,
        grid.width >= 4,
        0 <= row < grid.height,
        0 <= col < grid.width,
        grid.is_flat_blinker(row, col) || grid.is_upright_blinker(row, col),
    ensures
        grid.steps(2) == grid,
        grid.steps(1) != grid,
{
    let once = grid.step();
    let twice = once.step();
    assert(grid.steps(1) == once && grid.steps(2) == twice) by {
        reveal_with_fuel(Grid::steps, 3);
    }
    lemma_step_keeps_shape(grid);
    lemma_step_keeps_shape(once);
    lemma_blinker_turns(grid, row, col);
    lemma_blinker_turns(once, row, col);
    lemma_same_blinker(twice, grid, row, col);
    lemma_blinkers_differ(once, grid, row, col);
}

} // verus!