//! The board: a rectangular matrix of cells of fixed dimensions.

use crate::game::cell::{Action, Cell, Slot};
use crate::game::error::{CellBoardCreationError, FormatErrorVariant};
use crate::game::grid::Grid;
use crate::game::pattern::{
    byte_length, error_before, first_unrecognized, lemma_first_error_at,
    lemma_first_unrecognized_stays, lemma_recognized_row_length, pattern_error, pattern_grid,
    row_cells, texts, ALIVE_SYMBOL, DEAD_SYMBOL,
};
use vstd::prelude::*;

verus! {

/// A matrix of `height` rows of `width` cells each.
pub struct CellBoard {
    height: usize,
    width: usize,
    cells: Vec<Vec<Cell>>,
}

impl View for CellBoard {
    type V = Grid;

    closed spec fn view(&self) -> Grid {
        Grid {
            height: self.height as nat,
            width: self.width as nat,
            rows: Seq::new(self.cells@.len(), |row: int| self.cells@[row]@),
        }
    }
}

impl CellBoard {
    /// The board is rectangular: it holds as many rows as its height says
    /// and each row holds as many cells as its width says.
    pub open spec fn wf(&self) -> bool {
        self@.rectangular()
    }

    /// A board of the given dimensions on which every cell is dead.
    ///
    /// A board without rows or without columns is accepted: it has no cell,
    /// so nothing ever asks for the neighbours of one.
    pub fn new(height: usize, width: usize) -> (board: Self)
        ensures
            board.wf(),
            board@ == Grid::filled(height as nat, width as nat, Cell::Dead),
    {
        let board = Self { height, width, cells: vec![vec![Cell::Dead; width]; height] };
        assert(board@.rows =~~= Grid::filled(height as nat, width as nat, Cell::Dead).rows);
        board
    }

    /// Builds the board that the lines of a pattern describe: one line for
    /// each row, `X` for a living cell and `O` for a dead one.
    ///
    /// The first line sets the width, counted in bytes. The first line that
    /// is wrong decides the error; within a line an empty line comes before
    /// a wrong length, and a wrong length before a wrong character. A
    /// pattern without lines is the board without cells. That the source of
    /// the lines cannot be read is for the reader of the source to say: this
    /// function never answers with `FileError`.
    pub fn from_file(lines: &Vec<String>) -> (loaded: Result<Self, CellBoardCreationError>)
        ensures
            match loaded {
                Ok(board) => {
                    &&& pattern_error(texts(lines@)) is None
                    &&& board.wf()
                    &&& board@ == pattern_grid(texts(lines@))
                },
                Err(error) => {
                    &&& pattern_error(texts(lines@)) is Some
                    &&& error == CellBoardCreationError::FormatError(
                        pattern_error(texts(lines@))->0,
                    )
                },
            },
    {
        let ghost pattern = texts(lines@);
        let mut row_length: Option<usize> = None;
        let mut row_vec: Vec<Vec<Cell>> = Vec::new();
        let mut i: usize = 0;
        while i < lines.len()
            invariant
                pattern == texts(lines@),
                i <= lines.len(),
                error_before(pattern, i as nat) is None,
                row_vec.len() == i,
                (i == 0) == (row_length is None),
                i > 0 ==> row_length == Some(byte_length(pattern[0]) as usize) && byte_length(
                    pattern[0],
                ) <= usize::MAX,
                forall|row: int|
                    0 <= row < i ==> (#[trigger] row_vec[row])@ == row_cells(pattern[row])
                        && row_vec[row].len() == byte_length(pattern[0]),
            decreases lines.len() - i,
        {
            let line = lines[i].as_str();
            let line_length: usize = line.as_bytes().len();
            if line_length == 0 {
                proof {
                    lemma_first_error_at(pattern, i as nat);
                }
                return Err(CellBoardCreationError::FormatError(FormatErrorVariant::EmptyRow));
            }
            match row_length {
                None => row_length = Some(line_length),
                Some(length) => {
                    if line_length != length {
                        proof {
                            lemma_first_error_at(pattern, i as nat);
                        }
                        return Err(
                            CellBoardCreationError::FormatError(
                                FormatErrorVariant::RowLengthMismatch { row_index: i },
                            ),
                        );
                    }
                },
            }
            let mut col_vec: Vec<Cell> = Vec::new();
            for c in iter: line.chars()
                invariant
                    iter.seq() == line@,
                    pattern == texts(lines@),
                    line@ == pattern[i as int],
                    i < pattern.len(),
                    error_before(pattern, i as nat) is None,
                    byte_length(line@) == byte_length(pattern[0]),
                    byte_length(line@) != 0,
                    first_unrecognized(line@, iter.index() as nat) is None,
                    col_vec@ == row_cells(line@).take(iter.index() as int),
            {
                let cell = if c == ALIVE_SYMBOL {
                    Cell::Alive
                } else if c == DEAD_SYMBOL {
                    Cell::Dead
                } else {
                    proof {
                        lemma_first_unrecognized_stays(
                            line@,
                            (iter.index() + 1) as nat,
                            line@.len(),
                        );
                        lemma_first_error_at(pattern, i as nat);
                    }
                    return Err(
                        CellBoardCreationError::FormatError(
                            FormatErrorVariant::UnrecognizedCharacter(c),
                        ),
                    );
                };
                col_vec.push(cell);
            }
            proof {
                lemma_recognized_row_length(line@);
            }
            row_vec.push(col_vec);
            i += 1;
        }
        let width: usize = match row_length {
            Some(length) => length,
            None => 0,
        };
        let board = Self { height: row_vec.len(), width, cells: row_vec };
        assert(board@.rows =~~= pattern_grid(pattern).rows);
        Ok(board)
    }

    /// Puts `cell` at `slot` and leaves every other position as it was.
    pub fn set_slot(&mut self, slot: Slot, cell: Cell)
        requires
            old(self).wf(),
            old(self)@.contains(slot),
        ensures
            final(self).wf(),
            final(self)@ == old(self)@.with_cell(slot.0 as int, slot.1 as int, cell),
    {
        let Slot(row, col) = slot;
        assert(self@.rows[row as int].len() == self@.width);
        self.cells[row][col] = cell;
        assert(self@.rows =~~= old(self)@.with_cell(slot.0 as int, slot.1 as int, cell).rows);
    }

    /// The cell at `slot`.
    pub fn get_slot(&self, slot: Slot) -> (cell: Cell)
        requires
            self.wf(),
            self@.contains(slot),
        ensures
            cell == self@.cell(slot.0 as int, slot.1 as int),
    {
        let Slot(row, col) = slot;
        self.cells[row][col]
    }

    /// Sets the cell at `slot` as `action` says and leaves every other
    /// position as it was.
    pub fn apply_to_slot(&mut self, slot: Slot, action: Action)
        requires
            old(self).wf(),
            old(self)@.contains(slot),
        ensures
            final(self).wf(),
            final(self)@ == old(self)@.with_cell(slot.0 as int, slot.1 as int, action.outcome()),
    {
        let Slot(row, col) = slot;
        assert(self@.rows[row as int].len() == self@.width);
        self.cells[row][col].apply(action);
        assert(self@.rows =~~= old(self)@.with_cell(
            slot.0 as int,
            slot.1 as int,
            action.outcome(),
        ).rows);
    }

    /// The number of rows.
    pub fn height(&self) -> (height: usize)
        ensures
            height == self@.height,
    {
        self.height
    }

    /// The number of cells in each row.
    pub fn width(&self) -> (width: usize)
        ensures
            width == self@.width,
    {
        self.width
    }
}

} // verus!
