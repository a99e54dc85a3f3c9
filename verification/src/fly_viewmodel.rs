//! The game state machine: the stopped/running/paused lifecycle and the
//! operations that drive it — toggle run, stop, the per-tick update and
//! click handling — together with the round-outcome classification.

use vstd::prelude::*;
use crate::config::{Difficulty, FlyMode, GameState, WorldConfig};
use crate::fly_model::{draw_in_range, in_bounds_spec, FlyModel};
use crate::utilities::{dec_spec, time_display_spec};
use crate::utilities;

verus! {

/// The outcome of a finished round, by hunt count: none, exactly one,
/// or two and more.
#[derive(Clone, Copy, PartialEq, Eq, Debug, Structural)]
pub enum GameOutcome {
    NoHunt,
    OneHunt,
    ManyHunts,
}

/// Classifies a hunt count into its round outcome.
pub open spec fn outcome_spec(score: u32) -> GameOutcome {
    if score == 0 {
        GameOutcome::NoHunt
    } else if score == 1 {
        GameOutcome::OneHunt
    } else {
        GameOutcome::ManyHunts
    }
}

/// Drives the game: tick period, lifecycle state, the motion model, the
/// target position and the selected difficulty.
pub struct FlyViewModel {
    /// Tick period, in tenths of a second
    pub timer_tick: u32,
    /// Lifecycle state
    pub state: GameState,
    /// The motion model
    pub fly: FlyModel,
    /// Target x coordinate
    pub fly_x: u32,
    /// Target y coordinate
    pub fly_y: u32,
    /// Selected difficulty level
    pub difficulty: Difficulty,
}

impl FlyViewModel {
    /// The model is well formed and the tick period positive.
    pub open spec fn wf(&self) -> bool {
        self.fly.wf() && self.timer_tick >= 1
    }

    /// The state after toggling run: starting from stopped resets the
    /// countdown and clears the hunt count; running pauses; paused resumes.
    pub open spec fn toggle_run_spec(self) -> FlyViewModel {
        match self.state {
            GameState::Stopped => FlyViewModel {
                state: GameState::Running,
                fly: FlyModel { counter: self.fly.fly_time, fly_hunted: 0u32, ..self.fly },
                ..self
            },
            GameState::Running => FlyViewModel { state: GameState::Paused, ..self },
            GameState::Paused => FlyViewModel { state: GameState::Running, ..self },
        }
    }

    /// Whether a stop call signals that the caller should close: only when
    /// the game is already stopped.
    pub open spec fn stop_signal_spec(self) -> bool {
        self.state is Stopped
    }

    /// The state after a stop under the given draws: already stopped means
    /// unchanged; otherwise the state becomes stopped, the countdown is
    /// reset (the hunt count is kept), and the target is reborn.
    pub open spec fn stop_spec(self, rx: int, ry: int) -> FlyViewModel {
        if self.state is Stopped {
            self
        } else {
            FlyViewModel {
                state: GameState::Stopped,
                fly: FlyModel { counter: self.fly.fly_time, ..self.fly },
                fly_x: self.fly.next_x_spec(self.fly_x, rx, FlyMode::Reborn) as u32,
                fly_y: self.fly.next_y_spec(self.fly_y, ry, FlyMode::Reborn) as u32,
                ..self
            }
        }
    }

    /// Whether the next tick ends the round: only while running, when no
    /// more than one tick period remains.
    pub open spec fn tick_ends_spec(self) -> bool {
        self.state is Running && self.fly.counter <= self.timer_tick
    }

    /// The state after one tick under the given draws: ignored unless
    /// running; a running tick counts the countdown down and lets the
    /// target wander, and on expiry stops the round with a reborn target.
    pub open spec fn tick_spec(self, rx: int, ry: int) -> FlyViewModel {
        if !(self.state is Running) {
            self
        } else if self.fly.counter <= self.timer_tick {
            FlyViewModel {
                state: GameState::Stopped,
                fly: FlyModel { counter: self.fly.fly_time, ..self.fly },
                fly_x: self.fly.next_x_spec(self.fly_x, rx, FlyMode::Reborn) as u32,
                fly_y: self.fly.next_y_spec(self.fly_y, ry, FlyMode::Reborn) as u32,
                ..self
            }
        } else {
            FlyViewModel {
                fly: FlyModel {
                    counter: (self.fly.counter - self.timer_tick) as u32,
                    ..self.fly
                },
                fly_x: self.fly.next_x_spec(self.fly_x, rx, FlyMode::Wander) as u32,
                fly_y: self.fly.next_y_spec(self.fly_y, ry, FlyMode::Wander) as u32,
                ..self
            }
        }
    }

    /// The state after a click under the given draws: ignored unless
    /// running; a running click counts one hunt and the target is reborn.
    pub open spec fn click_spec(self, rx: int, ry: int) -> FlyViewModel {
        if !(self.state is Running) {
            self
        } else {
            FlyViewModel {
                fly: FlyModel { fly_hunted: (self.fly.fly_hunted + 1) as u32, ..self.fly },
                fly_x: self.fly.next_x_spec(self.fly_x, rx, FlyMode::Reborn) as u32,
                fly_y: self.fly.next_y_spec(self.fly_y, ry, FlyMode::Reborn) as u32,
                ..self
            }
        }
    }

    /// A fresh stopped game over the given world: tick period one tenth of
    /// a second, easy difficulty, and the target centred in the window.
    pub fn new(config: WorldConfig) -> (r: Self)
        requires
            config.wf(),
        ensures
            r == (FlyViewModel {
                timer_tick: 1u32,
                state: GameState::Stopped,
                fly: FlyModel {
                    config,
                    fly_speed: 20u32,
                    fly_hunted: 0u32,
                    fly_time: 100u32,
                    counter: 100u32,
                },
                fly_x: (config.width / 2) as u32,
                fly_y: (config.height / 2) as u32,
                difficulty: Difficulty::Easy,
            }),
            r.wf(),
    {
        let fly = FlyModel::new(config);
        let x = config.width / 2;
        let y = config.height / 2;
        FlyViewModel {
            timer_tick: 1,
            state: GameState::Stopped,
            fly,
            fly_x: x,
            fly_y: y,
            difficulty: Difficulty::Easy,
        }
    }

    /// Toggles the running state: stopped starts a fresh round (countdown
    /// reset, hunt count cleared), running pauses, paused resumes; nothing
    /// else changes.
    pub fn toggle_run(&mut self)
        ensures
            *final(self) == old(self).toggle_run_spec(),
    {
        if self.state == GameState::Stopped {
            self.fly.fly_start();
            self.state = GameState::Running;
        } else if self.state == GameState::Running {
            self.state = GameState::Paused;
        } else {
            self.state = GameState::Running;
        }
    }

    /// Stops the round. Called while already stopped it changes nothing and
    /// returns true, a request to close; otherwise it stops, resets the
    /// countdown, keeps the hunt count, moves the target to a reborn
    /// position, and returns false.
    pub fn stop(&mut self) -> (r: bool)
        requires
            old(self).wf(),
        ensures
            final(self).wf(),
            r == old(self).stop_signal_spec(),
            exists|rx: int, ry: int|
                draw_in_range(rx) && draw_in_range(ry) && *final(self) == old(self).stop_spec(
                    rx,
                    ry,
                ),
            old(self).state is Stopped ==> *final(self) == *old(self),
            !(old(self).state is Stopped) ==> final(self).state is Stopped && in_bounds_spec(
                old(self).fly.config,
                final(self).fly_x as int,
                final(self).fly_y as int,
            ),
    {
        if self.state == GameState::Stopped {
            proof {
                assert(*self == old(self).stop_spec(0, 0));
            }
            true
        } else {
            self.state = GameState::Stopped;
            self.fly.fly_reset();
            let p = self.fly.fly_position(self.fly_x, self.fly_y, FlyMode::Reborn);
            self.fly_x = p.0;
            self.fly_y = p.1;
            proof {
                let (rx, ry) = choose|rx: int, ry: int|
                    draw_in_range(rx) && draw_in_range(ry) && p.0 == old(self).fly.next_x_spec(
                        old(self).fly_x,
                        rx,
                        FlyMode::Reborn,
                    ) && p.1 == old(self).fly.next_y_spec(old(self).fly_y, ry, FlyMode::Reborn);
                assert(*self == old(self).stop_spec(rx, ry));
            }
            false
        }
    }

    /// Advances the game by one tick. Ignored unless running. While running
    /// it counts the countdown down by one tick period; on expiry it stops
    /// the round (reborn target, countdown reset, hunt count kept) and
    /// returns true, the round-end signal; otherwise the target wanders and
    /// it returns false.
    pub fn tick(&mut self) -> (r: bool)
        requires
            old(self).wf(),
        ensures
            final(self).wf(),
            r == old(self).tick_ends_spec(),
            exists|rx: int, ry: int|
                draw_in_range(rx) && draw_in_range(ry) && *final(self) == old(self).tick_spec(
                    rx,
                    ry,
                ),
            !(old(self).state is Running) ==> *final(self) == *old(self),
    {
        if !self.is_running() {
            proof {
                assert(*self == old(self).tick_spec(0, 0));
            }
            return false;
        }
        if !self.fly.fly_counter_update(self.timer_tick) {
            self.stop();
            proof {
                let (rx, ry) = choose|rx: int, ry: int|
                    draw_in_range(rx) && draw_in_range(ry) && *self == FlyViewModel {
                        state: GameState::Stopped,
                        fly: FlyModel { counter: old(self).fly.fly_time, ..old(self).fly },
                        fly_x: old(self).fly.next_x_spec(old(self).fly_x, rx, FlyMode::Reborn) as u32,
                        fly_y: old(self).fly.next_y_spec(old(self).fly_y, ry, FlyMode::Reborn) as u32,
                        ..*old(self)
                    };
                assert(*self == old(self).tick_spec(rx, ry));
            }
            return true;
        }
        let p = self.fly.fly_position(self.fly_x, self.fly_y, FlyMode::Wander);
        self.fly_x = p.0;
        self.fly_y = p.1;
        proof {
            let (rx, ry) = choose|rx: int, ry: int|
                draw_in_range(rx) && draw_in_range(ry) && p.0 == old(self).fly.next_x_spec(
                    old(self).fly_x,
                    rx,
                    FlyMode::Wander,
                ) && p.1 == old(self).fly.next_y_spec(old(self).fly_y, ry, FlyMode::Wander);
            assert(*self == old(self).tick_spec(rx, ry));
        }
        false
    }

    /// Registers a click on the target. Ignored unless running: neither the
    /// hunt count nor the position changes. While running it counts one
    /// hunt and moves the target to a reborn position.
    pub fn fly_click(&mut self)
        requires
            old(self).wf(),
            old(self).state is Running ==> old(self).fly.fly_hunted < u32::MAX,
        ensures
            final(self).wf(),
            exists|rx: int, ry: int|
                draw_in_range(rx) && draw_in_range(ry) && *final(self) == old(self).click_spec(
                    rx,
                    ry,
                ),
            !(old(self).state is Running) ==> *final(self) == *old(self),
            old(self).state is Running ==> final(self).fly.fly_hunted == old(self).fly.fly_hunted
                + 1 && in_bounds_spec(
                old(self).fly.config,
                final(self).fly_x as int,
                final(self).fly_y as int,
            ),
    {
        if !self.is_running() {
            proof {
                assert(*self == old(self).click_spec(0, 0));
            }
            return ;
        }
        self.fly.fly_hunted_update();
        let p = self.fly.fly_position(self.fly_x, self.fly_y, FlyMode::Reborn);
        self.fly_x = p.0;
        self.fly_y = p.1;
        proof {
            let (rx, ry) = choose|rx: int, ry: int|
                draw_in_range(rx) && draw_in_range(ry) && p.0 == old(self).fly.next_x_spec(
                    old(self).fly_x,
                    rx,
                    FlyMode::Reborn,
                ) && p.1 == old(self).fly.next_y_spec(old(self).fly_y, ry, FlyMode::Reborn);
            assert(*self == old(self).click_spec(rx, ry));
        }
    }

    /// Applies the selected difficulty to the motion model's speed factor.
    pub fn apply_difficulty(&mut self)
        ensures
            *final(self) == (FlyViewModel {
                fly: FlyModel { fly_speed: old(self).difficulty.speed_spec(), ..old(self).fly },
                ..*old(self)
            }),
            old(self).wf() ==> final(self).wf(),
    {
        match self.difficulty {
            Difficulty::Easy => self.fly.fly_speed = 10,
            Difficulty::Medium => self.fly.fly_speed = 30,
            Difficulty::Hard => self.fly.fly_speed = 60,
        }
    }

    /// The hunt count of the round, the figure a result message reports.
    pub fn get_game_result_message(&self) -> (r: u32)
        ensures
            r == self.fly.fly_hunted,
    {
        self.fly.fly_hunted
    }

    /// The round outcome of the current hunt count.
    pub fn game_outcome(&self) -> (r: GameOutcome)
        ensures
            r == outcome_spec(self.fly.fly_hunted),
    {
        if self.fly.fly_hunted == 0 {
            GameOutcome::NoHunt
        } else if self.fly.fly_hunted == 1 {
            GameOutcome::OneHunt
        } else {
            GameOutcome::ManyHunts
        }
    }

    /// Whether the game is running.
    pub fn is_running(&self) -> (r: bool)
        ensures
            r == (self.state is Running),
    {
        match self.state {
            GameState::Running => true,
            _ => false,
        }
    }

    /// The dashboard figures: the countdown as seconds and tenths, and the
    /// hunt count in decimal.
    pub fn dash_board_info(&self) -> (r: (String, String))
        ensures
            r.0@ == time_display_spec(self.fly.counter as int),
            r.1@ == dec_spec(self.fly.fly_hunted as int),
    {
        let str_sec = utilities::time_format_to_s_m(self.fly.counter);
        let str_score = utilities::u32_to_dec(self.fly.fly_hunted);
        (str_sec, str_score)
    }
}

/// Pausing and resuming preserve the game: toggling run from the running
/// state pauses, and toggling again restores the state exactly — in
/// particular the hunt count and the countdown are unchanged.
pub proof fn lemma_pause_resume_preserves(vm: FlyViewModel)
    requires
        vm.state is Running,
    ensures
        vm.toggle_run_spec().state is Paused,
        vm.toggle_run_spec().toggle_run_spec() == vm,
{
}

/// Two consecutive stops: from any non-stopped state the first stop signals
/// no close and leaves the game stopped; a second stop signals close and
/// changes nothing, whatever its draws.
pub proof fn lemma_stop_twice(vm: FlyViewModel, rx1: int, ry1: int, rx2: int, ry2: int)
    requires
        !(vm.state is Stopped),
    ensures
        !vm.stop_signal_spec(),
        vm.stop_spec(rx1, ry1).state is Stopped,
        vm.stop_spec(rx1, ry1).stop_signal_spec(),
        vm.stop_spec(rx1, ry1).stop_spec(rx2, ry2) == vm.stop_spec(rx1, ry1),
{
}

/// A click while stopped or paused changes nothing, whatever its draws.
pub proof fn lemma_click_ignored_unless_running(vm: FlyViewModel, rx: int, ry: int)
    requires
        !(vm.state is Running),
    ensures
        vm.click_spec(rx, ry) == vm,
{
}

/// The state after a sequence of ticks, one per pair of draws.
pub open spec fn ticks_spec(vm: FlyViewModel, draws: Seq<(int, int)>) -> FlyViewModel
    decreases draws.len(),
{
    if draws.len() == 0 {
        vm
    } else {
        ticks_spec(vm.tick_spec(draws[0].0, draws[0].1), draws.skip(1))
    }
}

/// The countdown is exact: while the game runs with more than k tick
/// periods remaining, k ticks leave it running, count the countdown down by
/// exactly k periods, and touch neither the hunt count nor the round
/// length — whatever the draws; and the round ends on the next tick exactly
/// when no more than one period remains.
pub proof fn lemma_countdown_exact(vm: FlyViewModel, draws: Seq<(int, int)>)
    requires
        vm.state is Running,
        vm.fly.counter > draws.len() * vm.timer_tick,
    ensures
        ticks_spec(vm, draws).state is Running,
        ticks_spec(vm, draws).fly.counter == vm.fly.counter - draws.len() * vm.timer_tick,
        ticks_spec(vm, draws).fly.fly_hunted == vm.fly.fly_hunted,
        ticks_spec(vm, draws).fly.fly_time == vm.fly.fly_time,
        ticks_spec(vm, draws).timer_tick == vm.timer_tick,
        ticks_spec(vm, draws).tick_ends_spec() <==> vm.fly.counter - draws.len() * vm.timer_tick
            <= vm.timer_tick,
    decreases draws.len(),
{
    if draws.len() == 0 {
    } else {
        let stepped = vm.tick_spec(draws[0].0, draws[0].1);
        assert(draws.len() * vm.timer_tick == (draws.len() - 1) * vm.timer_tick + vm.timer_tick)
            by (nonlinear_arith);
        lemma_countdown_exact(stepped, draws.skip(1));
    }
}

/// A tick while stopped or paused changes nothing and ends no round,
/// whatever its draws.
pub proof fn lemma_tick_ignored_unless_running(vm: FlyViewModel, rx: int, ry: int)
    requires
        !(vm.state is Running),
    ensures
        vm.tick_spec(rx, ry) == vm,
        !vm.tick_ends_spec(),
{
}

} // verus!
