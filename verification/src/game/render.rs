//! Boards and numbers as text for a plain display.

use crate::game::board::CellBoard;
use crate::game::cell::{Cell, Slot};
use crate::game::grid::Grid;
use vstd::prelude::*;

verus! {

/// The character that shows `cell`: a mark for a living cell, a blank for a
/// dead one.
pub open spec fn symbol_of(cell: Cell) -> char {
    match cell {
        Cell::Dead => ' ',
        Cell::Alive => 'X',
    }
}

/// The first `count` cells of `row`, one character each.
pub open spec fn cells_text(row: Seq<Cell>, count: nat) -> Seq<char> {
    Seq::new(count, |col: int| symbol_of(row[col]))
}

/// The first `count` rows of `grid`: for each row its cells, one character
/// each, and the end of the line.
pub open spec fn rows_text(grid: Grid, count: nat) -> Seq<char>
    decreases count,
{
    if count == 0 {
        Seq::empty()
    } else {
        rows_text(grid, (count - 1) as nat) + cells_text(grid.rows[count - 1], grid.width).push(
            '\n',
        )
    }
}

/// The whole of `grid` as text, row after row.
pub open spec fn grid_text(grid: Grid) -> Seq<char> {
    rows_text(grid, grid.height)
}

/// The character of the decimal digit `digit`.
pub open spec fn digit_char(digit: nat) -> char {
    if digit == 0 {
        '0'
    } else if digit == 1 {
        '1'
    } else if digit == 2 {
        '2'
    } else if digit == 3 {
        '3'
    } else if digit == 4 {
        '4'
    } else if digit == 5 {
        '5'
    } else if digit == 6 {
        '6'
    } else if digit == 7 {
        '7'
    } else if digit == 8 {
        '8'
    } else {
        '9'
    }
}

/// `number` in decimal digits, without leading zeros.
pub open spec fn decimal(number: nat) -> Seq<char>
    decreases number,
{
    if number < 10 {
        seq![digit_char(number)]
    } else {
        decimal(number / 10).push(digit_char(number % 10))
    }
}

/// The text of one decimal digit.
fn digit_text(digit: usize) -> (text: &'static str)
    requires
        digit < 10,
    ensures
        text@ == seq![digit_char(digit as nat)],
{
    proof {
        reveal_strlit("0");
        reveal_strlit("1");
        reveal_strlit("2");
        reveal_strlit("3");
        reveal_strlit("4");
        reveal_strlit("5");
        reveal_strlit("6");
        reveal_strlit("7");
        reveal_strlit("8");
        reveal_strlit("9");
    }
    let text = if digit == 0 {
        "0"
    } else if digit == 1 {
        "1"
    } else if digit == 2 {
        "2"
    } else if digit == 3 {
        "3"
    } else if digit == 4 {
        "4"
    } else if digit == 5 {
        "5"
    } else if digit == 6 {
        "6"
    } else if digit == 7 {
        "7"
    } else if digit == 8 {
        "8"
    } else {
        "9"
    };
    text
}

/// Appends `number` in decimal digits to `text`.
pub fn append_decimal(text: &mut String, number: usize)
    ensures
        final(text)@ == old(text)@ + decimal(number as nat),
    decreases number,
{
    if number >= 10 {
        append_decimal(text, number / 10);
    }
    text.append(digit_text(number % 10));
}

impl CellBoard {
    /// The board as text: one line for each row, in each line one character
    /// for each cell, a mark for a living cell and a blank for a dead one.
    pub fn to_string(&self) -> (text: String)
        requires
            self.wf(),
        ensures
            text@ == grid_text(self@),
    {
        let mut string_representation = String::new();
        let height: usize = self.height();
        let width: usize = self.width();
        let mut row: usize = 0;
        while row < height
            invariant
                self.wf(),
                height == self@.height,
                width == self@.width,
                row <= height,
                string_representation@ == rows_text(self@, row as nat),
            decreases height - row,
        {
            let ghost start = string_representation@;
            let mut col: usize = 0;
            while col < width
                invariant
                    self.wf(),
                    height == self@.height,
                    width == self@.width,
                    row < height,
                    col <= width,
                    string_representation@ == start + cells_text(
                        self@.rows[row as int],
                        col as nat,
                    ),
                decreases width - col,
            {
                proof {
                    reveal_strlit(" ");
                    reveal_strlit("X");
                }
                match self.get_slot(Slot(row, col)) {
                    Cell::Dead => string_representation.append(" "),
                    Cell::Alive => string_representation.append("X"),
                }
                assert(string_representation@ =~= start + cells_text(
                    self@.rows[row as int],
                    (col + 1) as nat,
                ));
                col += 1;
            }
            proof {
                reveal_strlit("\n");
            }
            string_representation.append("\n");
            row += 1;
        }
        string_representation
    }
}

} // verus!
