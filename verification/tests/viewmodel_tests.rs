use flyrust::config::{Difficulty, GameState, WorldConfig};
use flyrust::fly_viewmodel::{FlyViewModel, GameOutcome};

fn vm() -> FlyViewModel {
    FlyViewModel::new(WorldConfig::default())
}

#[test]
fn new_game_is_stopped_and_centred() {
    let v = vm();
    assert_eq!(v.state, GameState::Stopped);
    assert_eq!(v.timer_tick, 1);
    assert_eq!(v.fly_x, 400);
    assert_eq!(v.fly_y, 300);
    assert_eq!(v.difficulty, Difficulty::Easy);
}

#[test]
fn toggle_from_stopped_starts_a_fresh_round() {
    let mut v = vm();
    v.fly.counter = 3;
    v.fly.fly_hunted = 7;
    v.toggle_run();
    assert_eq!(v.state, GameState::Running);
    assert_eq!(v.fly.counter, 100);
    assert_eq!(v.fly.fly_hunted, 0);
}

#[test]
fn pause_and_resume_preserve_the_round() {
    let mut v = vm();
    v.toggle_run();
    v.fly_click();
    assert_eq!(v.fly.fly_hunted, 1);
    let counter = v.fly.counter;
    let pos = (v.fly_x, v.fly_y);
    v.toggle_run();
    assert_eq!(v.state, GameState::Paused);
    assert_eq!(v.fly.fly_hunted, 1);
    assert_eq!(v.fly.counter, counter);
    assert_eq!((v.fly_x, v.fly_y), pos);
    v.toggle_run();
    assert_eq!(v.state, GameState::Running);
    assert_eq!(v.fly.fly_hunted, 1);
    assert_eq!(v.fly.counter, counter);
    assert_eq!((v.fly_x, v.fly_y), pos);
}

#[test]
fn stop_called_twice_signals_close_the_second_time() {
    let mut v = vm();
    v.toggle_run();
    v.fly.counter = 42;
    assert!(!v.stop());
    assert_eq!(v.state, GameState::Stopped);
    assert_eq!(v.fly.counter, 100);
    let snapshot = (v.fly_x, v.fly_y, v.fly.fly_hunted, v.fly.counter);
    assert!(v.stop());
    assert_eq!(v.state, GameState::Stopped);
    assert_eq!((v.fly_x, v.fly_y, v.fly.fly_hunted, v.fly.counter), snapshot);
}

#[test]
fn stop_keeps_the_hunt_count() {
    let mut v = vm();
    v.toggle_run();
    v.fly_click();
    v.fly_click();
    assert!(!v.stop());
    assert_eq!(v.fly.fly_hunted, 2);
}

#[test]
fn ten_ticks_of_a_one_second_round_end_it_on_the_tenth() {
    let mut v = vm();
    v.fly.fly_time = 10;  // a one second round at a 0.1 second tick
    v.toggle_run();
    assert_eq!(v.fly.counter, 10);
    for i in 1..=9 {
        assert!(!v.tick(), "tick {} should not end the round", i);
        assert_eq!(v.state, GameState::Running);
        assert_eq!(v.fly.counter, 10 - i);
    }
    assert!(v.tick(), "the tenth tick should end the round");
    assert_eq!(v.state, GameState::Stopped);
    assert_eq!(v.fly.counter, 10);
}

#[test]
fn ticks_are_ignored_unless_running() {
    let mut v = vm();
    let snapshot = (v.fly_x, v.fly_y, v.fly.counter, v.fly.fly_hunted);
    assert!(!v.tick());
    assert_eq!(v.state, GameState::Stopped);
    assert_eq!((v.fly_x, v.fly_y, v.fly.counter, v.fly.fly_hunted), snapshot);
    v.toggle_run();
    v.toggle_run();
    assert_eq!(v.state, GameState::Paused);
    let snapshot = (v.fly_x, v.fly_y, v.fly.counter, v.fly.fly_hunted);
    assert!(!v.tick());
    assert_eq!((v.fly_x, v.fly_y, v.fly.counter, v.fly.fly_hunted), snapshot);
}

#[test]
fn clicks_are_ignored_unless_running() {
    let mut v = vm();
    let snapshot = (v.fly_x, v.fly_y, v.fly.fly_hunted);
    v.fly_click();
    assert_eq!((v.fly_x, v.fly_y, v.fly.fly_hunted), snapshot);
    v.toggle_run();
    v.toggle_run();
    assert_eq!(v.state, GameState::Paused);
    let snapshot = (v.fly_x, v.fly_y, v.fly.fly_hunted);
    v.fly_click();
    assert_eq!((v.fly_x, v.fly_y, v.fly.fly_hunted), snapshot);
}

#[test]
fn a_running_click_scores_a_hunt_and_moves_the_target() {
    let mut v = vm();
    v.toggle_run();
    v.fly_click();
    assert_eq!(v.fly.fly_hunted, 1);
    assert!((80..=720).contains(&v.fly_x));
    assert!((80..=520).contains(&v.fly_y));
    assert_eq!(v.get_game_result_message(), 1);
}

#[test]
fn apply_difficulty_sets_the_speed_factor() {
    let mut v = vm();
    assert_eq!(v.fly.fly_speed, 20);
    v.apply_difficulty();
    assert_eq!(v.fly.fly_speed, 10);
    v.difficulty = Difficulty::Medium;
    v.apply_difficulty();
    assert_eq!(v.fly.fly_speed, 30);
    v.difficulty = Difficulty::Hard;
    v.apply_difficulty();
    assert_eq!(v.fly.fly_speed, 60);
}

#[test]
fn outcome_classifies_the_hunt_count() {
    let mut v = vm();
    assert_eq!(v.game_outcome(), GameOutcome::NoHunt);
    v.fly.fly_hunted = 1;
    assert_eq!(v.game_outcome(), GameOutcome::OneHunt);
    v.fly.fly_hunted = 2;
    assert_eq!(v.game_outcome(), GameOutcome::ManyHunts);
    v.fly.fly_hunted = 99;
    assert_eq!(v.game_outcome(), GameOutcome::ManyHunts);
}

#[test]
fn dashboard_reports_countdown_and_score() {
    let mut v = vm();
    let (time_s, score_s) = v.dash_board_info();
    assert_eq!(time_s, "10.0");
    assert_eq!(score_s, "0");
    v.fly.counter = 53;
    v.fly.fly_hunted = 12;
    let (time_s, score_s) = v.dash_board_info();
    assert_eq!(time_s, "05.3");
    assert_eq!(score_s, "12");
}

#[test]
fn is_running_tracks_the_state() {
    let mut v = vm();
    assert!(!v.is_running());
    v.toggle_run();
    assert!(v.is_running());
    v.toggle_run();
    assert!(!v.is_running());
}
