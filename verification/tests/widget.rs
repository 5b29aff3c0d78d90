use game_of_life::game::cell::{Action, Cell, Slot};
use game_of_life::game::{CellBoardCreationError, FormatErrorVariant, Game};
use game_of_life::speed::{Speed, SpeedAction, SpeedVariant};
use game_of_life::widget::{user_action, GameWidget, Key, Response, UpdateEvent, UserAction};

fn blinker() -> Game {
    let mut game = Game::new(5, 5);
    for col in 1..4 {
        game.apply_action(Slot(2, col), Action::Live);
    }
    game
}

fn living_on(widget: &GameWidget) -> Vec<(usize, usize)> {
    let mut alive = Vec::new();
    for (Slot(row, col), cell) in widget.game().slots_and_cells() {
        if cell == Cell::Alive {
            alive.push((row, col));
        }
    }
    alive
}

#[test]
fn keys_ask_for_what_the_legend_says() {
    assert_eq!(user_action(Key::Esc, true), Some(UserAction::Quit));
    assert_eq!(user_action(Key::Char('q'), true), Some(UserAction::Quit));
    assert_eq!(user_action(Key::Left, true), Some(UserAction::RegulateSpeed(SpeedAction::Decrease)));
    assert_eq!(user_action(Key::Down, true), Some(UserAction::RegulateSpeed(SpeedAction::Decrease)));
    assert_eq!(user_action(Key::Right, true), Some(UserAction::RegulateSpeed(SpeedAction::Increase)));
    assert_eq!(user_action(Key::Up, true), Some(UserAction::RegulateSpeed(SpeedAction::Increase)));
    assert_eq!(user_action(Key::Char(' '), true), Some(UserAction::TogglePause));
}

#[test]
fn other_keys_ask_for_nothing() {
    assert_eq!(user_action(Key::Other, true), None);
    assert_eq!(user_action(Key::Char('Q'), true), None);
    assert_eq!(user_action(Key::Char('x'), true), None);
}

#[test]
fn keys_that_do_not_go_down_ask_for_nothing() {
    for key in [Key::Esc, Key::Char('q'), Key::Left, Key::Down, Key::Right, Key::Up, Key::Char(' ')] {
        assert_eq!(user_action(key, false), None);
    }
}

#[test]
fn new_widget_shows_the_game_at_the_speed() {
    let widget = GameWidget::new(blinker(), Speed::Unpaused(SpeedVariant::Fast));
    assert_eq!(widget.speed(), Speed::Unpaused(SpeedVariant::Fast));
    assert_eq!(living_on(&widget), [(2, 1), (2, 2), (2, 3)]);
    assert_eq!(widget.game().generation(), 0);
}

#[test]
fn widget_tick_advances_the_game() {
    let mut widget = GameWidget::new(blinker(), Speed::default());
    widget.tick();
    assert_eq!(living_on(&widget), [(1, 2), (2, 2), (3, 2)]);
    assert_eq!(widget.game().generation(), 1);
    assert_eq!(widget.speed(), Speed::Unpaused(SpeedVariant::Normal));
}

#[test]
fn pause_remembers_the_speed() {
    let mut widget = GameWidget::new(blinker(), Speed::Unpaused(SpeedVariant::Normal));
    widget.regulate_speed(SpeedAction::Increase);
    assert_eq!(widget.speed(), Speed::Unpaused(SpeedVariant::Fast));
    widget.toggle_pause();
    assert_eq!(widget.speed(), Speed::Paused);
    widget.regulate_speed(SpeedAction::Decrease);
    assert_eq!(widget.speed(), Speed::Paused);
    widget.toggle_pause();
    assert_eq!(widget.speed(), Speed::Unpaused(SpeedVariant::Fast));
}

#[test]
fn widget_that_starts_paused_resumes_at_normal_speed() {
    let mut widget = GameWidget::new(blinker(), Speed::Paused);
    widget.toggle_pause();
    assert_eq!(widget.speed(), Speed::Unpaused(SpeedVariant::Normal));
}

#[test]
fn widget_loads_a_pattern() {
    let lines = vec![String::from("OXO"), String::from("OXO"), String::from("OXO")];
    let widget = GameWidget::from_file(&lines, Speed::Unpaused(SpeedVariant::Slow)).ok().unwrap();
    assert_eq!(living_on(&widget), [(0, 1), (1, 1), (2, 1)]);
    assert_eq!(widget.speed(), Speed::Unpaused(SpeedVariant::Slow));
    assert_eq!(widget.game().generation(), 0);
}

#[test]
fn widget_reports_a_wrong_pattern() {
    let lines = vec![String::from("OXO"), String::from("OX")];
    let error = GameWidget::from_file(&lines, Speed::default()).err();
    assert_eq!(
        error,
        Some(CellBoardCreationError::FormatError(FormatErrorVariant::RowLengthMismatch {
            row_index: 1
        }))
    );
}

#[test]
fn tick_event_advances_and_asks_for_a_redraw() {
    let mut widget = GameWidget::new(blinker(), Speed::default());
    assert_eq!(widget.update(UpdateEvent::Tick), Response::Redraw);
    assert_eq!(living_on(&widget), [(1, 2), (2, 2), (3, 2)]);
    assert_eq!(widget.game().generation(), 1);
}

#[test]
fn quit_event_changes_nothing() {
    let mut widget = GameWidget::new(blinker(), Speed::default());
    assert_eq!(widget.update(UpdateEvent::Input(UserAction::Quit)), Response::Quit);
    assert_eq!(living_on(&widget), [(2, 1), (2, 2), (2, 3)]);
    assert_eq!(widget.game().generation(), 0);
    assert_eq!(widget.speed(), Speed::default());
}

#[test]
fn speed_events_announce_the_speed() {
    let mut widget = GameWidget::new(blinker(), Speed::default());
    assert_eq!(
        widget.update(UpdateEvent::Input(UserAction::RegulateSpeed(SpeedAction::Decrease))),
        Response::Announce(Speed::Unpaused(SpeedVariant::Slow))
    );
    assert_eq!(
        widget.update(UpdateEvent::Input(UserAction::RegulateSpeed(SpeedAction::Decrease))),
        Response::Announce(Speed::Unpaused(SpeedVariant::Slow))
    );
    assert_eq!(
        widget.update(UpdateEvent::Input(UserAction::TogglePause)),
        Response::Announce(Speed::Paused)
    );
    assert_eq!(
        widget.update(UpdateEvent::Input(UserAction::RegulateSpeed(SpeedAction::Increase))),
        Response::Announce(Speed::Paused)
    );
    assert_eq!(
        widget.update(UpdateEvent::Input(UserAction::TogglePause)),
        Response::Announce(Speed::Unpaused(SpeedVariant::Slow))
    );
    assert_eq!(widget.game().generation(), 0);
    assert_eq!(living_on(&widget), [(2, 1), (2, 2), (2, 3)]);
}
