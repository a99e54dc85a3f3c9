use flyrust::config::{Difficulty, GameState, IconType, WorldConfig};

#[test]
fn icon_shows_pause_only_while_running() {
    assert_eq!(GameState::Running.icon(), "⏸");
    assert_eq!(GameState::Stopped.icon(), "▶");
    assert_eq!(GameState::Paused.icon(), "▶");
}

#[test]
fn to_emoji_maps_every_kind() {
    assert_eq!(IconType::Error.to_emoji(), "❌");
    assert_eq!(IconType::Warning.to_emoji(), "❗");
    assert_eq!(IconType::Info.to_emoji(), "🔔");
    assert_eq!(IconType::Custom("🏆").to_emoji(), "🏆");
}

#[test]
fn difficulty_speed_mapping() {
    assert_eq!(Difficulty::Easy.speed(), 10);
    assert_eq!(Difficulty::Medium.speed(), 30);
    assert_eq!(Difficulty::Hard.speed(), 60);
}

#[test]
fn default_world_is_the_reference_configuration() {
    let c = WorldConfig::default();
    assert_eq!(c.width, 800);
    assert_eq!(c.height, 600);
    assert_eq!(c.margin, 80);
}

#[test]
fn degenerate_world_bounds_are_rejected() {
    assert!(WorldConfig::new(800, 600, 80).is_some());
    // margin consumes the whole width
    assert!(WorldConfig::new(100, 600, 50).is_none());
    // margin consumes the whole height
    assert!(WorldConfig::new(600, 100, 50).is_none());
    assert!(WorldConfig::new(10, 10, 40).is_none());
    let c = WorldConfig::new(801, 900, 400);
    assert!(c.is_some());
}
