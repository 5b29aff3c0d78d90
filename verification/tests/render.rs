use game_of_life::game::cell::{Action, Cell, Slot};
use game_of_life::game::render::append_decimal;
use game_of_life::game::{CellBoard, Game};

fn decimal(number: usize) -> String {
    let mut text = String::new();
    append_decimal(&mut text, number);
    text
}

#[test]
fn board_text_has_one_line_for_each_row() {
    let mut board = CellBoard::new(2, 3);
    board.set_slot(Slot(0, 1), Cell::Alive);
    board.set_slot(Slot(1, 0), Cell::Alive);
    board.set_slot(Slot(1, 2), Cell::Alive);
    assert_eq!(board.to_string(), " X \nX X\n");
}

#[test]
fn dead_board_text_is_blank() {
    assert_eq!(CellBoard::new(3, 2).to_string(), "  \n  \n  \n");
}

#[test]
fn text_of_a_board_without_cells() {
    assert_eq!(CellBoard::new(0, 0).to_string(), "");
    assert_eq!(CellBoard::new(0, 3).to_string(), "");
    assert_eq!(CellBoard::new(2, 0).to_string(), "\n\n");
}

#[test]
fn game_text_ends_with_the_generation() {
    let mut game = Game::new(2, 2);
    game.apply_action(Slot(0, 0), Action::Live);
    assert_eq!(game.to_string(), "X \n  \n\nGeneration: 0");
    game.tick();
    assert_eq!(game.to_string(), "  \n  \n\nGeneration: 1");
}

#[test]
fn game_text_counts_generations_in_decimal() {
    let mut game = Game::new(1, 1);
    for _ in 0..123 {
        game.tick();
    }
    assert_eq!(game.to_string(), " \n\nGeneration: 123");
}

#[test]
fn decimal_digits_of_numbers() {
    assert_eq!(decimal(0), "0");
    assert_eq!(decimal(7), "7");
    assert_eq!(decimal(10), "10");
    assert_eq!(decimal(99), "99");
    assert_eq!(decimal(100), "100");
    assert_eq!(decimal(1234567890), "1234567890");
    assert_eq!(decimal(usize::MAX), format!("{}", usize::MAX));
}

#[test]
fn append_decimal_keeps_what_is_there() {
    let mut text = String::from("n = ");
    append_decimal(&mut text, 405);
    assert_eq!(text, "n = 405");
}
