use game_of_life::game::cell::{Cell, Slot};
use game_of_life::game::{CellBoard, CellBoardCreationError, FormatErrorVariant, Game};

fn lines(rows: &[&str]) -> Vec<String> {
    let mut lines = Vec::new();
    for row in rows {
        lines.push(String::from(*row));
    }
    lines
}

fn format_error(rows: &[&str]) -> FormatErrorVariant {
    match Game::from_file(&lines(rows)) {
        Err(CellBoardCreationError::FormatError(error)) => error,
        Err(CellBoardCreationError::FileError) => panic!("no source was read"),
        Ok(_) => panic!("the pattern was accepted"),
    }
}

#[test]
fn diagonal_pattern_loads() {
    let game = Game::from_file(&lines(&["XOO", "OXO", "OOX"])).unwrap();
    assert_eq!(game.height(), 3);
    assert_eq!(game.width(), 3);
    assert_eq!(game.generation(), 0);
    for (Slot(row, col), cell) in game.slots_and_cells() {
        let expected = if row == col { Cell::Alive } else { Cell::Dead };
        assert_eq!(cell, expected);
    }
}

#[test]
fn board_loads_as_the_game_does() {
    let board = CellBoard::from_file(&lines(&["XO", "OX", "XX"])).unwrap();
    assert_eq!(board.height(), 3);
    assert_eq!(board.width(), 2);
    assert_eq!(board.get_slot(Slot(0, 0)), Cell::Alive);
    assert_eq!(board.get_slot(Slot(0, 1)), Cell::Dead);
    assert_eq!(board.get_slot(Slot(1, 0)), Cell::Dead);
    assert_eq!(board.get_slot(Slot(1, 1)), Cell::Alive);
    assert_eq!(board.get_slot(Slot(2, 0)), Cell::Alive);
    assert_eq!(board.get_slot(Slot(2, 1)), Cell::Alive);
}

#[test]
fn loaded_game_ticks() {
    let mut game = Game::from_file(&lines(&["OOOOO", "OOOOO", "OXXXO", "OOOOO", "OOOOO"])).unwrap();
    game.tick();
    let mut alive = Vec::new();
    for (Slot(row, col), cell) in game.slots_and_cells() {
        if cell == Cell::Alive {
            alive.push((row, col));
        }
    }
    assert_eq!(alive, [(1, 2), (2, 2), (3, 2)]);
    assert_eq!(game.generation(), 1);
}

#[test]
fn shorter_row_is_a_length_mismatch() {
    assert_eq!(format_error(&["XX", "X"]), FormatErrorVariant::RowLengthMismatch { row_index: 1 });
}

#[test]
fn longer_row_is_a_length_mismatch() {
    assert_eq!(
        format_error(&["XO", "OX", "XOX", "X"]),
        FormatErrorVariant::RowLengthMismatch { row_index: 2 }
    );
}

#[test]
fn foreign_character_is_unrecognized() {
    assert_eq!(format_error(&["XA O"]), FormatErrorVariant::UnrecognizedCharacter('A'));
}

#[test]
fn first_foreign_character_is_named() {
    assert_eq!(format_error(&["XO", "O.", "#X"]), FormatErrorVariant::UnrecognizedCharacter('.'));
    assert_eq!(format_error(&["OXbaX"]), FormatErrorVariant::UnrecognizedCharacter('b'));
}

#[test]
fn small_letters_and_blanks_are_unrecognized() {
    assert_eq!(format_error(&["x"]), FormatErrorVariant::UnrecognizedCharacter('x'));
    assert_eq!(format_error(&["o"]), FormatErrorVariant::UnrecognizedCharacter('o'));
    assert_eq!(format_error(&["X "]), FormatErrorVariant::UnrecognizedCharacter(' '));
    assert_eq!(format_error(&["0"]), FormatErrorVariant::UnrecognizedCharacter('0'));
}

#[test]
fn empty_row_is_an_empty_row_wherever_it_stands() {
    assert_eq!(format_error(&[""]), FormatErrorVariant::EmptyRow);
    assert_eq!(format_error(&["", ""]), FormatErrorVariant::EmptyRow);
    assert_eq!(format_error(&["", "", "X"]), FormatErrorVariant::EmptyRow);
    assert_eq!(format_error(&["XO", "OX", ""]), FormatErrorVariant::EmptyRow);
}

#[test]
fn empty_row_among_longer_rows_is_no_length_mismatch() {
    assert_eq!(format_error(&["XO", ""]), FormatErrorVariant::EmptyRow);
    assert_eq!(format_error(&["", "XO"]), FormatErrorVariant::EmptyRow);
}

#[test]
fn earlier_short_row_comes_before_later_empty_row() {
    assert_eq!(
        format_error(&["XOX", "XO", ""]),
        FormatErrorVariant::RowLengthMismatch { row_index: 1 }
    );
    assert_eq!(format_error(&["XO", "", "X"]), FormatErrorVariant::EmptyRow);
}

#[test]
fn wrong_length_comes_before_wrong_character() {
    assert_eq!(format_error(&["XO", "A"]), FormatErrorVariant::RowLengthMismatch { row_index: 1 });
}

#[test]
fn first_wrong_row_decides() {
    assert_eq!(format_error(&["XA", "X"]), FormatErrorVariant::UnrecognizedCharacter('A'));
    assert_eq!(
        format_error(&["XO", "X", "AB"]),
        FormatErrorVariant::RowLengthMismatch { row_index: 1 }
    );
}

#[test]
fn length_of_a_row_is_counted_in_bytes() {
    assert_eq!(format_error(&["XO", "\u{e9}"]), FormatErrorVariant::UnrecognizedCharacter('\u{e9}'));
    assert_eq!(
        format_error(&["XO", "\u{e9}X"]),
        FormatErrorVariant::RowLengthMismatch { row_index: 1 }
    );
}

#[test]
fn pattern_without_lines_is_a_board_without_cells() {
    let game = Game::from_file(&lines(&[])).unwrap();
    assert_eq!((game.height(), game.width()), (0, 0));
    assert_eq!(game.generation(), 0);
    assert!(game.slots_and_cells().is_empty());
}

#[test]
fn loaded_board_has_no_empty_row() {
    let game = Game::from_file(&lines(&["X"])).unwrap();
    assert_eq!((game.height(), game.width()), (1, 1));
    assert!(Game::from_file(&lines(&[""])).is_err());
}

#[test]
fn errors_of_the_board_and_of_the_game_agree() {
    let rows = lines(&["XX", "X"]);
    let of_board = CellBoard::from_file(&rows).err();
    let of_game = Game::from_file(&rows).err();
    assert_eq!(of_board, of_game);
    assert_eq!(
        of_board,
        Some(CellBoardCreationError::FormatError(FormatErrorVariant::RowLengthMismatch {
            row_index: 1
        }))
    );
}

#[test]
fn unreadable_source_is_no_format_error() {
    let unreadable = CellBoardCreationError::FileError;
    assert_ne!(unreadable, CellBoardCreationError::FormatError(FormatErrorVariant::EmptyRow));
    assert!(matches!(unreadable, CellBoardCreationError::FileError));
}

#[test]
fn failed_read_becomes_a_file_error() {
    let missing = std::io::Error::new(std::io::ErrorKind::NotFound, "no such file");
    assert_eq!(CellBoardCreationError::from(missing), CellBoardCreationError::FileError);
    let broken = std::io::Error::new(std::io::ErrorKind::InvalidData, "stream did not contain valid UTF-8");
    let converted: CellBoardCreationError = broken.into();
    assert_eq!(converted, CellBoardCreationError::FileError);
}
