use game_of_life::speed::{Speed, SpeedAction, SpeedVariant};
use std::time::Duration;

#[test]
fn speeds_have_their_intervals() {
    assert_eq!(SpeedVariant::Slow.millis(), 500);
    assert_eq!(SpeedVariant::Normal.millis(), 100);
    assert_eq!(SpeedVariant::Fast.millis(), 50);
    assert_eq!(SpeedVariant::Slow.to_duration(), Duration::from_millis(500));
    assert_eq!(SpeedVariant::Normal.to_duration(), Duration::from_millis(100));
    assert_eq!(SpeedVariant::Fast.to_duration(), Duration::from_millis(50));
}

#[test]
fn speed_goes_up_step_by_step_and_stops() {
    let mut speed = SpeedVariant::Slow;
    speed.regulate(SpeedAction::Increase);
    assert_eq!(speed, SpeedVariant::Normal);
    speed.regulate(SpeedAction::Increase);
    assert_eq!(speed, SpeedVariant::Fast);
    speed.regulate(SpeedAction::Increase);
    assert_eq!(speed, SpeedVariant::Fast);
}

#[test]
fn speed_goes_down_step_by_step_and_stops() {
    let mut speed = SpeedVariant::Fast;
    speed.regulate(SpeedAction::Decrease);
    assert_eq!(speed, SpeedVariant::Normal);
    speed.regulate(SpeedAction::Decrease);
    assert_eq!(speed, SpeedVariant::Slow);
    speed.regulate(SpeedAction::Decrease);
    assert_eq!(speed, SpeedVariant::Slow);
}

#[test]
fn default_speed_is_normal_and_running() {
    assert_eq!(SpeedVariant::default(), SpeedVariant::Normal);
    assert_eq!(Speed::default(), Speed::Unpaused(SpeedVariant::Normal));
}

#[test]
fn paused_speed_is_not_regulated() {
    let mut speed = Speed::Paused;
    speed.regulate(SpeedAction::Increase);
    assert_eq!(speed, Speed::Paused);
    speed.regulate(SpeedAction::Decrease);
    assert_eq!(speed, Speed::Paused);
}

#[test]
fn running_speed_is_regulated() {
    let mut speed = Speed::Unpaused(SpeedVariant::Normal);
    speed.regulate(SpeedAction::Increase);
    assert_eq!(speed, Speed::Unpaused(SpeedVariant::Fast));
    speed.regulate(SpeedAction::Decrease);
    speed.regulate(SpeedAction::Decrease);
    assert_eq!(speed, Speed::Unpaused(SpeedVariant::Slow));
}

#[test]
fn toggle_pause_pauses_and_resumes() {
    let mut speed = Speed::Unpaused(SpeedVariant::Fast);
    speed.toggle_pause(Some(SpeedVariant::Slow));
    assert_eq!(speed, Speed::Paused);
    speed.toggle_pause(Some(SpeedVariant::Slow));
    assert_eq!(speed, Speed::Unpaused(SpeedVariant::Slow));
    speed.toggle_pause(None);
    assert_eq!(speed, Speed::Paused);
    speed.toggle_pause(None);
    assert_eq!(speed, Speed::Unpaused(SpeedVariant::Normal));
}

#[test]
fn speeds_have_their_names() {
    assert_eq!(Speed::Paused.to_string(), "Paused");
    assert_eq!(Speed::Unpaused(SpeedVariant::Slow).to_string(), "Slow");
    assert_eq!(Speed::Unpaused(SpeedVariant::Normal).to_string(), "Normal");
    assert_eq!(Speed::Unpaused(SpeedVariant::Fast).to_string(), "Fast");
}
