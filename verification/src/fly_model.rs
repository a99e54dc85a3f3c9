//! The target motion model: speed, round duration, countdown and hunt count,
//! and the position-update algorithm under the three motion policies.

use vstd::prelude::*;
use crate::config::{FlyMode, WorldConfig};

verus! {

/// A fixed-point random draw lies in [-1000, 1000), standing for a real
/// value in [-1, 1) in thousandths.
pub open spec fn draw_in_range(r: int) -> bool {
    -1000 <= r < 1000
}

/// A value forced into the closed interval from lo to hi.
pub open spec fn clamp_spec(v: int, lo: int, hi: int) -> int {
    if v < lo {
        lo
    } else if v > hi {
        hi
    } else {
        v
    }
}

/// The signed displacement of one wander step: the draw times the speed
/// factor, at draw resolution, rounded towards zero.
pub open spec fn step_spec(r: int, speed: int) -> int {
    if r < 0 {
        -((-r) * speed / 1000)
    } else {
        r * speed / 1000
    }
}

/// One wander move along an axis: step from the margin-relative position,
/// clamp to the playable span, and re-add the margin.
pub open spec fn wander_axis_spec(pos: int, margin: int, inner: int, r: int, speed: int) -> int {
    clamp_spec(pos - margin + step_spec(r, speed), 0, inner) + margin
}

/// One reborn move along an axis: a fresh position across the whole playable
/// span, scaled from the draw's magnitude, independent of the prior position.
pub open spec fn reborn_axis_spec(margin: int, inner: int, r: int) -> int {
    (if r < 0 {
        -r
    } else {
        r
    }) * inner / 1000 + margin
}

/// The position lies in the playable area: within the margins on both axes.
pub open spec fn in_bounds_spec(c: WorldConfig, x: int, y: int) -> bool {
    c.margin <= x <= c.width - c.margin && c.margin <= y <= c.height - c.margin
}

/// The magnitude of a draw scaled to a span of the given length stays
/// within that span.
proof fn lemma_scaled_magnitude_bound(mag: int, inner: int)
    requires
        0 <= mag <= 1000,
        0 <= inner,
    ensures
        0 <= mag * inner / 1000 <= inner,
{
    assert(mag * inner <= 1000 * inner) by (nonlinear_arith)
        requires
            0 <= mag <= 1000,
            0 <= inner,
    ;
    assert(0 <= mag * inner / 1000 <= inner) by (nonlinear_arith)
        requires
            0 <= mag * inner,
            mag * inner <= 1000 * inner,
            0 <= inner,
    ;
}

/// Any wander output along an axis lies between the margin and the far edge.
pub proof fn lemma_wander_axis_bounds(pos: int, margin: int, inner: int, r: int, speed: int)
    requires
        draw_in_range(r),
        0 <= margin,
        0 <= inner,
    ensures
        margin <= wander_axis_spec(pos, margin, inner, r, speed) <= inner + margin,
{
}

/// Any reborn output along an axis lies between the margin and the far edge.
pub proof fn lemma_reborn_axis_bounds(margin: int, inner: int, r: int)
    requires
        draw_in_range(r),
        0 <= margin,
        0 <= inner,
    ensures
        margin <= reborn_axis_spec(margin, inner, r) <= inner + margin,
{
    let mag = if r < 0 {
        -r
    } else {
        r
    };
    lemma_scaled_magnitude_bound(mag, inner);
}

/// Owns the target's speed factor, round duration, countdown and hunt count,
/// and computes the next target coordinate. Durations are in tenths of a
/// second; coordinates and speed are in window pixels.
pub struct FlyModel {
    /// World geometry
    pub config: WorldConfig,
    /// Speed factor: the largest wander step per tick, in pixels
    pub fly_speed: u32,
    /// Hunts scored in the current round
    pub fly_hunted: u32,
    /// Round duration, in tenths of a second
    pub fly_time: u32,
    /// Time remaining in the round, in tenths of a second
    pub counter: u32,
}

impl FlyModel {
    /// The geometry is playable and the speed factor positive.
    pub open spec fn wf(&self) -> bool {
        self.config.wf() && self.fly_speed >= 1
    }

    /// The next x coordinate under the given policy and draw.
    pub open spec fn next_x_spec(&self, fly_x: u32, r: int, mode: FlyMode) -> int {
        match mode {
            FlyMode::Wander => wander_axis_spec(
                fly_x as int,
                self.config.margin as int,
                self.config.inner_w(),
                r,
                self.fly_speed as int,
            ),
            FlyMode::Reborn => reborn_axis_spec(self.config.margin as int, self.config.inner_w(), r),
            FlyMode::Frozen => fly_x as int,
        }
    }

    /// The next y coordinate under the given policy and draw.
    pub open spec fn next_y_spec(&self, fly_y: u32, r: int, mode: FlyMode) -> int {
        match mode {
            FlyMode::Wander => wander_axis_spec(
                fly_y as int,
                self.config.margin as int,
                self.config.inner_h(),
                r,
                self.fly_speed as int,
            ),
            FlyMode::Reborn => reborn_axis_spec(self.config.margin as int, self.config.inner_h(), r),
            FlyMode::Frozen => fly_y as int,
        }
    }

    /// A fresh model: default speed factor 20, a ten second round, and the
    /// countdown already full.
    pub fn new(config: WorldConfig) -> (r: Self)
        requires
            config.wf(),
        ensures
            r == (FlyModel { config, fly_speed: 20u32, fly_hunted: 0u32, fly_time: 100u32, counter: 100u32 }),
            r.wf(),
    {
        FlyModel { config, fly_speed: 20, fly_hunted: 0, fly_time: 100, counter: 100 }
    }

    /// Resets the countdown to the round duration; the hunt count is kept.
    pub fn fly_reset(&mut self)
        ensures
            *final(self) == (FlyModel { counter: old(self).fly_time, ..*old(self) }),
    {
        self.counter = self.fly_time;
    }

    /// Starts a round: the countdown is reset and the hunt count cleared.
    pub fn fly_start(&mut self)
        ensures
            *final(self) == (FlyModel { counter: old(self).fly_time, fly_hunted: 0u32, ..*old(self) }),
    {
        self.counter = self.fly_time;
        self.fly_hunted = 0;
    }

    /// Counts the countdown down by one tick period, stopping at zero.
    /// Returns whether time remains afterwards.
    pub fn fly_counter_update(&mut self, dt: u32) -> (r: bool)
        ensures
            *final(self) == (FlyModel {
                counter: if old(self).counter >= dt {
                    (old(self).counter - dt) as u32
                } else {
                    0u32
                },
                ..*old(self)
            }),
            r == (old(self).counter > dt),
    {
        if self.counter > dt {
            self.counter = self.counter - dt;
            true
        } else {
            self.counter = 0;
            false
        }
    }

    /// Counts one hunt.
    pub fn fly_hunted_update(&mut self)
        requires
            old(self).fly_hunted < u32::MAX,
        ensures
            *final(self) == (FlyModel { fly_hunted: (old(self).fly_hunted + 1) as u32, ..*old(self) }),
    {
        self.fly_hunted = self.fly_hunted + 1;
    }

    /// The next position from the given prior position and draws, under the
    /// given policy: deterministic in its arguments, so the same draws give
    /// the same position.
    pub fn next_position(&self, fly_x: u32, fly_y: u32, rx: i32, ry: i32, mode: FlyMode) -> (r: (
        u32,
        u32,
    ))
        requires
            self.wf(),
            draw_in_range(rx as int),
            draw_in_range(ry as int),
        ensures
            r.0 == self.next_x_spec(fly_x, rx as int, mode),
            r.1 == self.next_y_spec(fly_y, ry as int, mode),
            !(mode is Frozen) ==> in_bounds_spec(self.config, r.0 as int, r.1 as int),
    {
        let margin = self.config.margin;
        let inner_w = self.config.width - 2 * margin;
        let inner_h = self.config.height - 2 * margin;
        match mode {
            FlyMode::Wander => {
                let x = wander_axis(fly_x, margin, inner_w, rx, self.fly_speed);
                let y = wander_axis(fly_y, margin, inner_h, ry, self.fly_speed);
                proof {
                    lemma_wander_axis_bounds(
                        fly_x as int,
                        margin as int,
                        inner_w as int,
                        rx as int,
                        self.fly_speed as int,
                    );
                    lemma_wander_axis_bounds(
                        fly_y as int,
                        margin as int,
                        inner_h as int,
                        ry as int,
                        self.fly_speed as int,
                    );
                }
                (x, y)
            },
            FlyMode::Reborn => {
                let x = reborn_axis(margin, inner_w, rx);
                let y = reborn_axis(margin, inner_h, ry);
                proof {
                    lemma_reborn_axis_bounds(margin as int, inner_w as int, rx as int);
                    lemma_reborn_axis_bounds(margin as int, inner_h as int, ry as int);
                }
                (x, y)
            },
            FlyMode::Frozen => (fly_x, fly_y),
        }
    }

    /// The next position under the given policy, with both axes drawn
    /// independently at random. A wander or reborn output lies in the
    /// playable area whatever came out of the draws; a frozen call returns
    /// the position unchanged.
    pub fn fly_position(&self, fly_x: u32, fly_y: u32, mode: FlyMode) -> (r: (u32, u32))
        requires
            self.wf(),
        ensures
            exists|rx: int, ry: int|
                draw_in_range(rx) && draw_in_range(ry) && r.0 == self.next_x_spec(fly_x, rx, mode)
                    && r.1 == self.next_y_spec(fly_y, ry, mode),
            !(mode is Frozen) ==> in_bounds_spec(self.config, r.0 as int, r.1 as int),
            mode is Frozen ==> r == (fly_x, fly_y),
    {
        let rx = draw_unit();
        let ry = draw_unit();
        let out = self.next_position(fly_x, fly_y, rx, ry, mode);
        proof {
            assert(draw_in_range(rx as int) && draw_in_range(ry as int) && out.0
                == self.next_x_spec(fly_x, rx as int, mode) && out.1 == self.next_y_spec(
                fly_y,
                ry as int,
                mode,
            ));
        }
        out
    }
}

/// Any wander or reborn output position lies within the margins on both
/// axes, from any prior position.
pub proof fn lemma_motion_stays_in_bounds(
    m: FlyModel,
    x: u32,
    y: u32,
    rx: int,
    ry: int,
    mode: FlyMode,
)
    requires
        m.wf(),
        draw_in_range(rx),
        draw_in_range(ry),
        !(mode is Frozen),
    ensures
        in_bounds_spec(m.config, m.next_x_spec(x, rx, mode), m.next_y_spec(y, ry, mode)),
{
    match mode {
        FlyMode::Wander => {
            lemma_wander_axis_bounds(
                x as int,
                m.config.margin as int,
                m.config.inner_w(),
                rx,
                m.fly_speed as int,
            );
            lemma_wander_axis_bounds(
                y as int,
                m.config.margin as int,
                m.config.inner_h(),
                ry,
                m.fly_speed as int,
            );
        },
        FlyMode::Reborn => {
            lemma_reborn_axis_bounds(m.config.margin as int, m.config.inner_w(), rx);
            lemma_reborn_axis_bounds(m.config.margin as int, m.config.inner_h(), ry);
        },
        FlyMode::Frozen => {
        },
    }
}

/// A reborn position is independent of the prior position: under the same
/// draws, any two prior positions give the same output.
pub proof fn lemma_reborn_position_independent(
    m: FlyModel,
    x1: u32,
    y1: u32,
    x2: u32,
    y2: u32,
    rx: int,
    ry: int,
)
    ensures
        m.next_x_spec(x1, rx, FlyMode::Reborn) == m.next_x_spec(x2, rx, FlyMode::Reborn),
        m.next_y_spec(y1, ry, FlyMode::Reborn) == m.next_y_spec(y2, ry, FlyMode::Reborn),
{
}

/// A wander step moves each axis by at most the speed factor, before
/// clamping to the playable area.
pub proof fn lemma_wander_step_bounded(r: int, speed: int)
    requires
        draw_in_range(r),
        0 <= speed,
    ensures
        -speed <= step_spec(r, speed) <= speed,
{
    if r < 0 {
        lemma_step_magnitude_bound(-r, speed);
    } else {
        lemma_step_magnitude_bound(r, speed);
    }
}

/// From a position inside the playable span, one wander step moves the axis
/// by at most the speed factor in either direction.
pub proof fn lemma_wander_moves_at_most_speed(
    pos: int,
    margin: int,
    inner: int,
    r: int,
    speed: int,
)
    requires
        draw_in_range(r),
        0 <= speed,
        0 <= margin,
        0 <= inner,
        margin <= pos <= inner + margin,
    ensures
        -speed <= wander_axis_spec(pos, margin, inner, r, speed) - pos <= speed,
{
    lemma_wander_step_bounded(r, speed);
}

/// The magnitude of one step at draw resolution is at most the speed factor.
proof fn lemma_step_magnitude_bound(mag: int, speed: int)
    requires
        0 <= mag <= 1000,
        0 <= speed,
    ensures
        0 <= mag * speed / 1000 <= speed,
{
    lemma_scaled_magnitude_bound(mag, speed);
}

/// Relies on rand::random_range, seeded from the thread-local generator:
/// a uniform draw from the half-open integer range given, here
/// [-1000, 1000); it panics only on an empty range.
#[verifier::external_body]
fn draw_unit() -> (r: i32)
    ensures
        -1000 <= r < 1000,
{
    rand::random_range(-1000i32..1000i32)
}

fn wander_axis(pos: u32, margin: u32, inner: u32, r: i32, speed: u32) -> (out: u32)
    requires
        draw_in_range(r as int),
        margin + inner <= u32::MAX,
    ensures
        out == wander_axis_spec(pos as int, margin as int, inner as int, r as int, speed as int),
{
    let mag: u64 = if r < 0 {
        (-(r as i64)) as u64
    } else {
        r as u64
    };
    proof {
        assert(mag * (speed as u64) <= 1000 * (speed as u64)) by (nonlinear_arith)
            requires
                mag <= 1000,
        ;
    }
    let step: u64 = mag * (speed as u64) / 1000;
    let base: i64 = pos as i64 - margin as i64;
    let moved: i64 = if r < 0 {
        base - step as i64
    } else {
        base + step as i64
    };
    let hi: i64 = inner as i64;
    let clamped: i64 = if moved < 0 {
        0
    } else if moved > hi {
        hi
    } else {
        moved
    };
    (clamped + margin as i64) as u32
}

fn reborn_axis(margin: u32, inner: u32, r: i32) -> (out: u32)
    requires
        draw_in_range(r as int),
        margin + inner <= u32::MAX,
    ensures
        out == reborn_axis_spec(margin as int, inner as int, r as int),
{
    let mag: u64 = if r < 0 {
        (-(r as i64)) as u64
    } else {
        r as u64
    };
    proof {
        lemma_scaled_magnitude_bound(mag as int, inner as int);
    }
    let scaled: u64 = mag * (inner as u64) / 1000;
    (scaled + margin as u64) as u32
}

} // verus!
