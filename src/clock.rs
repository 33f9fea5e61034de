use vstd::prelude::*;

use crate::color::{is_legal_pair, next_colors, next_pair, TrafficLightColor};

verus! {

/// Simulated time passes this many times faster than wall-clock time.
pub const SIMULATION_SPEEDUP_FACTOR: u64 = 60;

/// One second, in microseconds: the unit of every duration below.
pub const MICROS_PER_SECOND: u64 = 1_000_000;

/// A phase lasts this long before noon of the simulated day.
pub const SHORT_PHASE_MICROS: u64 = 60_000_000;

/// A phase lasts this long from noon of the simulated day on.
pub const LONG_PHASE_MICROS: u64 = 180_000_000;

/// Noon of the simulated day: twelve hours.
pub const HALF_DAY_MICROS: u64 = 43_200_000_000;

/// The end of the run: twenty-four simulated hours.
pub const FULL_DAY_MICROS: u64 = 86_400_000_000;

/// Each completed phase of length `t` adds `t * (NUM / DEN - 1)` of latency:
/// a factor of 1.2, written as the ratio 6 / 5.
pub const LATENCY_FACTOR_NUM: u64 = 6;

/// The denominator of the latency factor.
pub const LATENCY_FACTOR_DEN: u64 = 5;

/// How long the phase lasts that is running when the simulated clock reads `simulated`.
pub open spec fn phase_duration(simulated: int) -> int {
    if simulated < HALF_DAY_MICROS {
        SHORT_PHASE_MICROS as int
    } else {
        LONG_PHASE_MICROS as int
    }
}

/// The latency that one completed phase of target length `target` adds.
pub open spec fn phase_latency(target: int) -> int {
    target * (LATENCY_FACTOR_NUM - LATENCY_FACTOR_DEN) / (LATENCY_FACTOR_DEN as int)
}

/// What a clock holds, as mathematical values (times in microseconds).
pub struct ClockState {
    pub color_a: TrafficLightColor,
    pub color_b: TrafficLightColor,
    pub simulated: int,
    pub phase_timer: int,
    pub latency: int,
    pub complete: bool,
}

impl ClockState {
    /// A state that a run can be in: a legal pair, the clock within the day and
    /// complete exactly at its end, and, until then, the phase timer and five times
    /// the latency (one fifth of every completed phase) together no more than the
    /// simulated time that has gone by.
    pub open spec fn wf(self) -> bool {
        &&& is_legal_pair(self.color_a, self.color_b)
        &&& 0 <= self.simulated <= FULL_DAY_MICROS
        &&& self.complete <==> self.simulated == FULL_DAY_MICROS
        &&& 0 <= self.phase_timer
        &&& 0 <= self.latency
        &&& !self.complete ==> self.latency * 5 + self.phase_timer <= self.simulated
    }

    /// A run that starts at `simulated` on the clock: Green/Red, timers at zero.
    pub open spec fn start(simulated: int) -> ClockState {
        ClockState {
            color_a: TrafficLightColor::Green,
            color_b: TrafficLightColor::Red,
            simulated,
            phase_timer: 0,
            latency: 0,
            complete: simulated == FULL_DAY_MICROS,
        }
    }

    /// One step, after `real_delta` microseconds of wall-clock time: the clocks
    /// advance, at most one phase expires (against the duration that holds at the
    /// advanced time), and the run completes, clamped, at the end of the day.
    /// A complete run does not change.
    pub open spec fn stepped(self, real_delta: nat) -> ClockState {
        if self.complete {
            self
        } else {
            let delta = real_delta * SIMULATION_SPEEDUP_FACTOR;
            let simulated = self.simulated + delta;
            let timer = self.phase_timer + delta;
            let target = phase_duration(simulated);
            let expired = timer >= target;
            let pair = if expired {
                next_pair(self.color_a, self.color_b)
            } else {
                (self.color_a, self.color_b)
            };
            let done = simulated >= FULL_DAY_MICROS;
            ClockState {
                color_a: pair.0,
                color_b: pair.1,
                simulated: if done {
                    FULL_DAY_MICROS as int
                } else {
                    simulated
                },
                phase_timer: if expired {
                    timer - target
                } else {
                    timer
                },
                latency: if expired {
                    self.latency + phase_latency(target)
                } else {
                    self.latency
                },
                complete: done,
            }
        }
    }
}

/// The phase duration for the simulated time `simulated_micros`.
pub fn target_phase_duration(simulated_micros: u128) -> (r: u64)
    ensures
        r == phase_duration(simulated_micros as int),
{
    if simulated_micros < HALF_DAY_MICROS as u128 {
        SHORT_PHASE_MICROS
    } else {
        LONG_PHASE_MICROS
    }
}

/// The latency for one completed phase of length `target_micros`.
fn latency_for_phase(target_micros: u64) -> (r: u64)
    requires
        target_micros <= LONG_PHASE_MICROS,
    ensures
        r == phase_latency(target_micros as int),
{
    let excess: u64 = LATENCY_FACTOR_NUM - LATENCY_FACTOR_DEN;
    assert(target_micros * excess <= LONG_PHASE_MICROS * excess) by (nonlinear_arith)
        requires
            target_micros <= LONG_PHASE_MICROS,
            excess == 1,
    ;
    target_micros * excess / LATENCY_FACTOR_DEN
}

/// Two traffic lights on a simulated clock. The wall clock is read by the caller,
/// which hands each step the time that went by since the last one.
pub struct TrafficLightApp {
    color_a: TrafficLightColor,
    color_b: TrafficLightColor,
    simulated_micros: u64,
    state_timer_micros: u128,
    total_latency_micros: u64,
    simulation_complete: bool,
}

impl View for TrafficLightApp {
    type V = ClockState;

    closed spec fn view(&self) -> ClockState {
        ClockState {
            color_a: self.color_a,
            color_b: self.color_b,
            simulated: self.simulated_micros as int,
            phase_timer: self.state_timer_micros as int,
            latency: self.total_latency_micros as int,
            complete: self.simulation_complete,
        }
    }
}

impl Default for TrafficLightApp {
    /// A run at the start of the simulated day.
    fn default() -> (r: Self)
        ensures
            r@ == ClockState::start(0),
            r@.wf(),
    {
        TrafficLightApp::new()
    }
}

impl TrafficLightApp {
    /// A run at the start of the simulated day: Green/Red, every counter at zero.
    pub fn new() -> (r: Self)
        ensures
            r@ == ClockState::start(0),
            r@.wf(),
    {
        TrafficLightApp {
            color_a: TrafficLightColor::Green,
            color_b: TrafficLightColor::Red,
            simulated_micros: 0,
            state_timer_micros: 0,
            total_latency_micros: 0,
            simulation_complete: false,
        }
    }

    /// A fresh run whose simulated clock already reads `simulated_micros`; `None`
    /// past the end of the day.
    pub fn starting_at(simulated_micros: u64) -> (r: Option<Self>)
        ensures
            r is Some <==> simulated_micros <= FULL_DAY_MICROS,
            r matches Some(app) ==> app@ == ClockState::start(simulated_micros as int)
                && app@.wf(),
    {
        if simulated_micros > FULL_DAY_MICROS {
            None
        } else {
            Some(
                TrafficLightApp {
                    color_a: TrafficLightColor::Green,
                    color_b: TrafficLightColor::Red,
                    simulated_micros,
                    state_timer_micros: 0,
                    total_latency_micros: 0,
                    simulation_complete: simulated_micros == FULL_DAY_MICROS,
                },
            )
        }
    }

    /// Advances the run by `real_delta_micros` of wall-clock time (see
    /// `ClockState::stepped`).
    pub fn run_simulation_step(&mut self, real_delta_micros: u64)
        requires
            old(self)@.wf(),
        ensures
            final(self)@ == old(self)@.stepped(real_delta_micros as nat),
            final(self)@.wf(),
    {
        if self.simulation_complete {
            return;
        }
        let simulated_delta: u128 = real_delta_micros as u128 * SIMULATION_SPEEDUP_FACTOR as u128;
        let simulated: u128 = self.simulated_micros as u128 + simulated_delta;
        let timer: u128 = self.state_timer_micros + simulated_delta;
        let target = target_phase_duration(simulated);
        if timer >= target as u128 {
            self.total_latency_micros = self.total_latency_micros + latency_for_phase(target);
            self.state_timer_micros = timer - target as u128;
            let (next_a, next_b) = next_colors(self.color_a, self.color_b);
            self.color_a = next_a;
            self.color_b = next_b;
        } else {
            self.state_timer_micros = timer;
        }
        if simulated >= FULL_DAY_MICROS as u128 {
            self.simulation_complete = true;
            self.simulated_micros = FULL_DAY_MICROS;
        } else {
            self.simulated_micros = simulated as u64;
        }
    }

    /// The colour that light A shows.
    pub fn color_a(&self) -> (r: TrafficLightColor)
        ensures
            r == self@.color_a,
    {
        self.color_a
    }

    /// The colour that light B shows.
    pub fn color_b(&self) -> (r: TrafficLightColor)
        ensures
            r == self@.color_b,
    {
        self.color_b
    }

    /// Simulated time elapsed, in microseconds.
    pub fn simulated_micros(&self) -> (r: u64)
        ensures
            r == self@.simulated,
    {
        self.simulated_micros
    }

    /// Time elapsed within the current phase, in microseconds.
    pub fn phase_timer_micros(&self) -> (r: u128)
        ensures
            r == self@.phase_timer,
    {
        self.state_timer_micros
    }

    /// Latency accumulated over the completed phases, in microseconds.
    pub fn total_latency_micros(&self) -> (r: u64)
        ensures
            r == self@.latency,
    {
        self.total_latency_micros
    }

    /// Whether the simulated day is over.
    pub fn is_complete(&self) -> (r: bool)
        ensures
            r == self@.complete,
    {
        self.simulation_complete
    }
}

} // verus!
