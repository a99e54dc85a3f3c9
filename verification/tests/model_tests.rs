use flyrust::config::{FlyMode, WorldConfig};
use flyrust::fly_model::FlyModel;

fn model() -> FlyModel {
    FlyModel::new(WorldConfig::default())
}

#[test]
fn new_model_defaults() {
    let m = model();
    assert_eq!(m.fly_speed, 20);
    assert_eq!(m.fly_hunted, 0);
    assert_eq!(m.fly_time, 100);
    assert_eq!(m.counter, 100);
}

#[test]
fn counter_update_counts_down_and_reports_time_left() {
    let mut m = model();
    assert!(m.fly_counter_update(1));
    assert_eq!(m.counter, 99);
    m.counter = 2;
    assert!(m.fly_counter_update(1));
    assert_eq!(m.counter, 1);
    // exactly one period left: no time remains afterwards
    assert!(!m.fly_counter_update(1));
    assert_eq!(m.counter, 0);
    assert!(!m.fly_counter_update(1));
    assert_eq!(m.counter, 0);
}

#[test]
fn start_resets_countdown_and_hunts_reset_keeps_hunts() {
    let mut m = model();
    m.counter = 17;
    m.fly_hunted = 4;
    m.fly_reset();
    assert_eq!(m.counter, 100);
    assert_eq!(m.fly_hunted, 4);
    m.counter = 17;
    m.fly_start();
    assert_eq!(m.counter, 100);
    assert_eq!(m.fly_hunted, 0);
}

#[test]
fn hunted_update_counts_one() {
    let mut m = model();
    m.fly_hunted_update();
    m.fly_hunted_update();
    assert_eq!(m.fly_hunted, 2);
}

#[test]
fn wander_step_is_deterministic_in_the_draws() {
    let mut m = model();
    m.fly_speed = 10;
    // draw 999 steps 999*10/1000 = 9 right, draw -1000 steps 10 up
    let (x, y) = m.next_position(400, 300, 999, -1000, FlyMode::Wander);
    assert_eq!((x, y), (409, 290));
    // the same draws from the same position give the same output
    let (x2, y2) = m.next_position(400, 300, 999, -1000, FlyMode::Wander);
    assert_eq!((x2, y2), (409, 290));
}

#[test]
fn wander_clamps_at_the_margins() {
    let mut m = model();
    m.fly_speed = 10;
    // at the near corner, a negative draw is clamped to the margin
    let (x, y) = m.next_position(80, 80, -999, -999, FlyMode::Wander);
    assert_eq!((x, y), (80, 80));
    // at the far corner, a positive draw is clamped to width/height - margin
    let (x, y) = m.next_position(720, 520, 999, 999, FlyMode::Wander);
    assert_eq!((x, y), (720, 520));
}

#[test]
fn reborn_is_independent_of_the_prior_position() {
    let m = model();
    let a = m.next_position(100, 100, -1000, 500, FlyMode::Reborn);
    let b = m.next_position(700, 500, -1000, 500, FlyMode::Reborn);
    assert_eq!(a, b);
    // -1000 spans the whole inner width: 640 + 80; 500 gives 220 + 80
    assert_eq!(a, (720, 300));
}

#[test]
fn frozen_returns_the_position_unchanged() {
    let m = model();
    assert_eq!(m.next_position(123, 456, -777, 777, FlyMode::Frozen), (123, 456));
}

#[test]
fn random_positions_stay_in_bounds() {
    let m = model();
    let mut x = 400u32;
    let mut y = 300u32;
    for _ in 0..200 {
        let (nx, ny) = m.fly_position(x, y, FlyMode::Wander);
        assert!((80..=720).contains(&nx));
        assert!((80..=520).contains(&ny));
        x = nx;
        y = ny;
    }
    for _ in 0..200 {
        let (nx, ny) = m.fly_position(x, y, FlyMode::Reborn);
        assert!((80..=720).contains(&nx));
        assert!((80..=520).contains(&ny));
        x = nx;
        y = ny;
    }
}

#[test]
fn easy_wander_moves_at_most_ten_pixels_per_axis() {
    // the end-to-end example: 800x600 world, margin 80, easy speed 10
    let mut m = model();
    m.fly_speed = flyrust::config::Difficulty::Easy.speed();
    let mut x = 400u32;
    let mut y = 300u32;
    for _ in 0..200 {
        let (nx, ny) = m.fly_position(x, y, FlyMode::Wander);
        assert!(nx.abs_diff(x) <= 10);
        assert!(ny.abs_diff(y) <= 10);
        assert!((80..=720).contains(&nx));
        assert!((80..=520).contains(&ny));
        x = nx;
        y = ny;
    }
}
