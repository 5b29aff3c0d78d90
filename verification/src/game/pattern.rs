//! The text form of a board: one line for each row, one character for each
//! cell, `X` for a living cell and `O` for a dead one. Every line is as long
//! as the first, and no line is empty.

use crate::game::cell::Cell;
use crate::game::error::FormatErrorVariant;
use crate::game::grid::Grid;
use vstd::prelude::*;
use vstd::utf8::{encode_utf8, is_ascii_chars, is_ascii_chars_encode_utf8};

verus! {

/// The character that stands for a living cell.
pub const ALIVE_SYMBOL: char = 'X';

/// The character that stands for a dead cell.
pub const DEAD_SYMBOL: char = 'O';

/// The cell that `symbol` stands for, if it stands for one.
pub open spec fn cell_of(symbol: char) -> Option<Cell> {
    if symbol == ALIVE_SYMBOL {
        Some(Cell::Alive)
    } else if symbol == DEAD_SYMBOL {
        Some(Cell::Dead)
    } else {
        None
    }
}

/// The length of a row of text: the number of bytes of its UTF-8 encoding.
pub open spec fn byte_length(line: Seq<char>) -> nat {
    encode_utf8(line).len()
}

/// The first of the first `count` characters of `line` that stands for no
/// cell, if there is one.
pub open spec fn first_unrecognized(line: Seq<char>, count: nat) -> Option<char>
    decreases count,
{
    if count == 0 {
        None
    } else {
        match first_unrecognized(line, (count - 1) as nat) {
            Some(symbol) => Some(symbol),
            None => if cell_of(line[count - 1]) is None {
                Some(line[count - 1])
            } else {
                None
            },
        }
    }
}

/// What is wrong with row `row` of `lines`, if anything is. Every row is
/// held to being non-empty first, a row after the first then to the length
/// of the first row, and every row at last to the two symbols.
pub open spec fn row_error(lines: Seq<Seq<char>>, row: int) -> Option<FormatErrorVariant> {
    if byte_length(lines[row]) == 0 {
        Some(FormatErrorVariant::EmptyRow)
    } else if byte_length(lines[row]) != byte_length(lines[0]) {
        Some(FormatErrorVariant::RowLengthMismatch { row_index: row as usize })
    } else {
        match first_unrecognized(lines[row], lines[row].len()) {
            Some(symbol) => Some(FormatErrorVariant::UnrecognizedCharacter(symbol)),
            None => None,
        }
    }
}

/// What is wrong with the first of the first `count` rows of `lines` with
/// which anything is wrong, if there is such a row.
pub open spec fn error_before(lines: Seq<Seq<char>>, count: nat) -> Option<FormatErrorVariant>
    decreases count,
{
    if count == 0 {
        None
    } else {
        match error_before(lines, (count - 1) as nat) {
            Some(error) => Some(error),
            None => row_error(lines, count - 1),
        }
    }
}

/// What is wrong with the pattern `lines`, if anything is: the error of its
/// first row that has one.
pub open spec fn pattern_error(lines: Seq<Seq<char>>) -> Option<FormatErrorVariant> {
    error_before(lines, lines.len())
}

/// The cells that the characters of `line` stand for; a character that
/// stands for none counts as a dead cell.
pub open spec fn row_cells(line: Seq<char>) -> Seq<Cell> {
    Seq::new(
        line.len(),
        |col: int|
            match cell_of(line[col]) {
                Some(cell) => cell,
                None => Cell::Dead,
            },
    )
}

/// The grid that the pattern `lines` describes: as high as there are lines,
/// as wide as the first line is long, and no width without a line.
pub open spec fn pattern_grid(lines: Seq<Seq<char>>) -> Grid {
    Grid {
        height: lines.len(),
        width: if lines.len() == 0 {
            0
        } else {
            byte_length(lines[0])
        },
        rows: Seq::new(lines.len(), |row: int| row_cells(lines[row])),
    }
}

/// The lines of a pattern as sequences of characters.
pub open spec fn texts(lines: Seq<String>) -> Seq<Seq<char>> {
    Seq::new(lines.len(), |row: int| lines[row]@)
}

/// Once one of the first `found` characters stands for no cell, the first
/// such character stays the same however many more are looked at.
pub proof fn lemma_first_unrecognized_stays(line: Seq<char>, found: nat, count: nat)
    requires
        first_unrecognized(line, found) is Some,
        found <= count,
    ensures
        first_unrecognized(line, count) == first_unrecognized(line, found),
    decreases count,
{
    if found < count {
        lemma_first_unrecognized_stays(line, found, (count - 1) as nat);
    }
}

/// Where none of the first `count` characters is unrecognized, each of them
/// stands for a cell.
pub proof fn lemma_all_recognized(line: Seq<char>, count: nat)
    requires
        first_unrecognized(line, count) is None,
    ensures
        forall|col: int| 0 <= col < count ==> cell_of(#[trigger] line[col]) is Some,
    decreases count,
{
    if count > 0 {
        lemma_all_recognized(line, (count - 1) as nat);
    }
}

/// The place of the first of the first `count` characters of `line` that
/// stands for no cell, or `count` where each of them stands for one.
spec fn first_unrecognized_at(line: Seq<char>, count: nat) -> int
    decreases count,
{
    if count == 0 {
        0
    } else if first_unrecognized(line, (count - 1) as nat) is Some {
        first_unrecognized_at(line, (count - 1) as nat)
    } else {
        count - 1
    }
}

/// Where one of the first `count` characters stands for no cell, the first
/// such character is one of them, and each character before it stands for a
/// cell.
proof fn lemma_first_unrecognized_at(line: Seq<char>, count: nat)
    requires
        first_unrecognized(line, count) is Some,
    ensures
        0 <= first_unrecognized_at(line, count) < count,
        first_unrecognized(line, count) == Some(line[first_unrecognized_at(line, count)]),
        cell_of(line[first_unrecognized_at(line, count)]) is None,
        forall|earlier: int|
            0 <= earlier < first_unrecognized_at(line, count) ==> cell_of(
                #[trigger] line[earlier],
            ) is Some,
    decreases count,
{
    if first_unrecognized(line, (count - 1) as nat) is Some {
        lemma_first_unrecognized_at(line, (count - 1) as nat);
    } else {
        lemma_all_recognized(line, (count - 1) as nat);
    }
}

/// The character that a line is turned down for is its first character that
/// stands for no cell: the place that comes back holds it, and each
/// character before that place stands for a cell.
pub proof fn lemma_first_unrecognized_is_first(line: Seq<char>) -> (col: int)
    requires
        first_unrecognized(line, line.len()) is Some,
    ensures
        0 <= col < line.len(),
        first_unrecognized(line, line.len()) == Some(line[col]),
        cell_of(line[col]) is None,
        forall|earlier: int| 0 <= earlier < col ==> cell_of(#[trigger] line[earlier]) is Some,
{
    lemma_first_unrecognized_at(line, line.len());
    first_unrecognized_at(line, line.len())
}

/// A line made of the two symbols alone is as long as it has characters.
pub proof fn lemma_recognized_row_length(line: Seq<char>)
    requires
        first_unrecognized(line, line.len()) is None,
    ensures
        byte_length(line) == line.len(),
{
    lemma_all_recognized(line, line.len());
    assert(is_ascii_chars(line));
    is_ascii_chars_encode_utf8(line);
}

/// Once something is wrong with one of the first `found` rows, the first
/// error stays the same however many more rows are looked at.
pub proof fn lemma_first_error_stays(lines: Seq<Seq<char>>, found: nat, count: nat)
    requires
        error_before(lines, found) is Some,
        found <= count,
    ensures
        error_before(lines, count) == error_before(lines, found),
    decreases count,
{
    if found < count {
        lemma_first_error_stays(lines, found, (count - 1) as nat);
    }
}

/// Where nothing is wrong with the rows before `row`, what is wrong with
/// `row` is what is wrong with the pattern.
pub proof fn lemma_first_error_at(lines: Seq<Seq<char>>, row: nat)
    requires
        row < lines.len(),
        error_before(lines, row) is None,
        row_error(lines, row as int) is Some,
    ensures
        pattern_error(lines) == row_error(lines, row as int),
{
    lemma_first_error_stays(lines, row + 1, lines.len());
}

/// Nothing is wrong with the first `count` rows taken together exactly where
/// nothing is wrong with any one of them.
pub proof fn lemma_no_error_before(lines: Seq<Seq<char>>, count: nat)
    ensures
        error_before(lines, count) is None <==> forall|row: int|
            0 <= row < count ==> (#[trigger] row_error(lines, row)) is None,
    decreases count,
{
    if count > 0 {
        lemma_no_error_before(lines, (count - 1) as nat);
    }
}

/// A pattern is accepted exactly where nothing is wrong with any of its
/// rows.
pub proof fn lemma_pattern_accepted(lines: Seq<Seq<char>>)
    ensures
        pattern_error(lines) is None <==> forall|row: int|
            0 <= row < lines.len() ==> (#[trigger] row_error(lines, row)) is None,
{
    lemma_no_error_before(lines, lines.len());
}

/// What is wrong with a pattern is what is wrong with its first wrong row:
/// the row that comes back has the error of the pattern, and nothing is
/// wrong with any row before it.
pub proof fn lemma_pattern_error_is_first(lines: Seq<Seq<char>>) -> (row: int)
    requires
        pattern_error(lines) is Some,
    ensures
        0 <= row < lines.len(),
        row_error(lines, row) == pattern_error(lines),
        forall|earlier: int| 0 <= earlier < row ==> (#[trigger] row_error(lines, earlier)) is None,
{
    let row = first_wrong_row(lines, lines.len());
    lemma_first_wrong_row(lines, lines.len());
    row
}

/// The first of the first `count` rows with which something is wrong, or
/// `count` where nothing is wrong with any of them.
spec fn first_wrong_row(lines: Seq<Seq<char>>, count: nat) -> int
    decreases count,
{
    if count == 0 {
        0
    } else if error_before(lines, (count - 1) as nat) is Some {
        first_wrong_row(lines, (count - 1) as nat)
    } else {
        count - 1
    }
}

/// Where something is wrong with one of the first `count` rows, the first
/// wrong row is one of them, its error is the error of the rows taken
/// together, and nothing is wrong with any row before it.
proof fn lemma_first_wrong_row(lines: Seq<Seq<char>>, count: nat)
    requires
        error_before(lines, count) is Some,
    ensures
        0 <= first_wrong_row(lines, count) < count,
        row_error(lines, first_wrong_row(lines, count)) == error_before(lines, count),
        forall|earlier: int|
            0 <= earlier < first_wrong_row(lines, count) ==> (#[trigger] row_error(
                lines,
                earlier,
            )) is None,
    decreases count,
{
    if error_before(lines, (count - 1) as nat) is Some {
        lemma_first_wrong_row(lines, (count - 1) as nat);
    } else {
        lemma_no_error_before(lines, (count - 1) as nat);
    }
}

/// An accepted pattern describes a rectangular grid: every row has as many
/// cells as the first line is long, and where there is a row at all, that
/// is at least one cell.
pub proof fn lemma_accepted_pattern_is_rectangular(lines: Seq<Seq<char>>)
    requires
        pattern_error(lines) is None,
    ensures
        pattern_grid(lines).rectangular(),
        lines.len() > 0 ==> pattern_grid(lines).width > 0,
{
    lemma_pattern_accepted(lines);
    let grid = pattern_grid(lines);
    if lines.len() > 0 {
        assert(row_error(lines, 0) is None);
    }
    assert forall|row: int| 0 <= row < grid.height implies (#[trigger] grid.rows[row]).len()
        == grid.width by {
        assert(row_error(lines, row) is None);
        assert(row_error(lines, 0) is None);
        lemma_recognized_row_length(lines[row]);
        lemma_recognized_row_length(lines[0]);
    }
}

} // verus!
