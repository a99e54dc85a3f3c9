//! Game configuration: lifecycle states, motion policies, popup kinds,
//! dashboard icons, difficulty levels and the world geometry.

use vstd::prelude::*;

verus! {

/// Lifecycle of one round: stopped (initial), running, or paused.
#[derive(Clone, Copy, PartialEq, Eq, Debug, Structural)]
pub enum GameState {
    Stopped,
    Running,
    Paused,
}

impl GameState {
    /// The icon of the run/pause button: a pause glyph while running,
    /// a play glyph otherwise.
    pub fn icon(&self) -> (r: &'static str)
        ensures
            r@ == (if self is Running {
                "⏸"@
            } else {
                "▶"@
            }),
    {
        match self {
            GameState::Running => "⏸",
            _ => "▶",
        }
    }
}

/// Motion policy for the next target position.
#[derive(Clone, Copy, PartialEq, Eq, Debug, Structural)]
pub enum FlyMode {
    /// A small bounded random step scaled by the speed factor.
    Wander,
    /// A fresh uniform position, independent of the prior one.
    Reborn,
    /// No motion: the position is returned unchanged.
    Frozen,
}

/// Which modal dialog, if any, the orchestration layer should show.
#[derive(Clone, Copy, PartialEq, Eq, Debug, Structural)]
pub enum Popup {
    Hidden,
    Exit,
    GameOver,
}

/// Icon shown beside a popup message.
#[derive(Clone, Copy, PartialEq, Eq, Debug)]
pub enum IconType {
    Error,
    Warning,
    Info,
    Custom(&'static str),
}

impl IconType {
    /// The emoji that stands for this icon kind.
    pub open spec fn emoji_spec(&self) -> Seq<char> {
        match self {
            IconType::Error => "❌"@,
            IconType::Warning => "❗"@,
            IconType::Info => "🔔"@,
            IconType::Custom(e) => e@,
        }
    }

    pub fn to_emoji(&self) -> (r: &'static str)
        ensures
            r@ == self.emoji_spec(),
    {
        match self {
            IconType::Error => "❌",
            IconType::Warning => "❗",
            IconType::Info => "🔔",
            IconType::Custom(e) => e,
        }
    }
}

/// Difficulty level, each bound to a fixed speed factor.
#[derive(Clone, Copy, PartialEq, Eq, Debug, Structural)]
pub enum Difficulty {
    Easy,
    Medium,
    Hard,
}

impl Difficulty {
    /// Speed factor bound to each level.
    pub open spec fn speed_spec(&self) -> u32 {
        match self {
            Difficulty::Easy => 10,
            Difficulty::Medium => 30,
            Difficulty::Hard => 60,
        }
    }

    /// Maps the level to its target-speed factor: easy 10, medium 30, hard 60
    /// (positional displacement per tick, in window pixels).
    pub fn speed(&self) -> (r: u32)
        ensures
            r == self.speed_spec(),
    {
        match self {
            Difficulty::Easy => 10,
            Difficulty::Medium => 30,
            Difficulty::Hard => 60,
        }
    }
}

/// Game world geometry: window width and height, and the margin inset
/// from the window edges, all in pixels.
#[derive(Clone, Copy, PartialEq, Eq, Debug, Structural)]
pub struct WorldConfig {
    /// Window width
    pub width: u32,
    /// Window height
    pub height: u32,
    /// Margin from the window border
    pub margin: u32,
}

impl WorldConfig {
    /// The playable area does not degenerate: each dimension leaves room
    /// inside the margins.
    pub open spec fn wf(&self) -> bool {
        self.width > 2 * self.margin && self.height > 2 * self.margin
    }

    /// Width of the playable area between the margins.
    pub open spec fn inner_w(&self) -> int {
        self.width - 2 * self.margin
    }

    /// Height of the playable area between the margins.
    pub open spec fn inner_h(&self) -> int {
        self.height - 2 * self.margin
    }

    /// Accepts the geometry only when the margins leave a playable area.
    pub fn new(width: u32, height: u32, margin: u32) -> (r: Option<WorldConfig>)
        ensures
            match r {
                Some(c) => c == (WorldConfig { width, height, margin }) && c.wf(),
                None => !(width > 2 * margin && height > 2 * margin),
            },
    {
        if (width as u64) > 2 * (margin as u64) && (height as u64) > 2 * (margin as u64) {
            Some(WorldConfig { width, height, margin })
        } else {
            None
        }
    }
}

impl Default for WorldConfig {
    /// The reference configuration: an 800 by 600 window with an 80 pixel margin.
    fn default() -> (r: Self)
        ensures
            r == (WorldConfig { width: 800u32, height: 600u32, margin: 80u32 }),
            r.wf(),
    {
        WorldConfig { width: 800, height: 600, margin: 80 }
    }
}

} // verus!
