//! Why a board could not be built from a pattern.

use vstd::prelude::*;

verus! {

/// What is wrong with the text of a pattern.
#[derive(Debug, Clone, Copy, PartialEq, Eq, Structural)]
pub enum FormatErrorVariant {
    /// The row at `row_index` is not empty and not as long as the first row.
    RowLengthMismatch { row_index: usize },
    /// A row holds a character that stands for no cell.
    UnrecognizedCharacter(char),
    /// A row holds no character at all.
    EmptyRow,
}

/// Why a board could not be built.
#[derive(Debug, Clone, Copy, PartialEq, Eq, Structural)]
pub enum CellBoardCreationError {
    /// The source of the pattern could not be read.
    FileError,
    /// The pattern was read and is not a board.
    FormatError(FormatErrorVariant),
}

/// The error of `std::io`, of which the library reads nothing: that it came
/// is all that matters.
#[verifier::external_type_specification]
#[verifier::external_body]
pub struct ExIoError(std::io::Error);

impl From<std::io::Error> for CellBoardCreationError {
    /// Whatever went wrong while the source was read, the source is
    /// unreadable.
    fn from(_error: std::io::Error) -> (converted: Self) {
        Self::FileError
    }
}

impl vstd::std_specs::convert::FromSpecImpl<std::io::Error> for CellBoardCreationError {
    open spec fn obeys_from_spec() -> bool {
        true
    }

    open spec fn from_spec(_error: std::io::Error) -> Self {
        CellBoardCreationError::FileError
    }
}

} // verus!
