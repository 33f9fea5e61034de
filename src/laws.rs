use vstd::prelude::*;

use crate::clock::{
    ClockState, FULL_DAY_MICROS, HALF_DAY_MICROS, LONG_PHASE_MICROS, SHORT_PHASE_MICROS,
    SIMULATION_SPEEDUP_FACTOR,
};
use crate::color::{is_legal_pair, next_pair, TrafficLightColor};

verus! {

/// The state after one step for each wall-clock delta of `deltas`, in order.
pub open spec fn after_steps(s: ClockState, deltas: Seq<nat>) -> ClockState
    decreases deltas.len(),
{
    if deltas.len() == 0 {
        s
    } else {
        after_steps(s.stepped(deltas[0]), deltas.drop_first())
    }
}

/// Four transitions bring a legal pair back to itself, through legal pairs only.
pub proof fn lemma_cycle_returns(a: TrafficLightColor, b: TrafficLightColor)
    requires
        is_legal_pair(a, b),
    ensures
        ({
            let once = next_pair(a, b);
            let twice = next_pair(once.0, once.1);
            let thrice = next_pair(twice.0, twice.1);
            let four_times = next_pair(thrice.0, thrice.1);
            &&& is_legal_pair(once.0, once.1)
            &&& is_legal_pair(twice.0, twice.1)
            &&& is_legal_pair(thrice.0, thrice.1)
            &&& four_times == (a, b)
        }),
{
}

/// One step keeps a well-formed state well-formed, and neither the simulated
/// time nor the latency goes down.
pub proof fn lemma_step_keeps_wf(s: ClockState, real_delta: nat)
    requires
        s.wf(),
    ensures
        s.stepped(real_delta).wf(),
        s.stepped(real_delta).simulated >= s.simulated,
        s.stepped(real_delta).latency >= s.latency,
{
}

/// After any sequence of steps the two lights show a legal pair and the simulated
/// time lies within the day.
pub proof fn lemma_steps_stay_legal(s: ClockState, deltas: Seq<nat>)
    requires
        s.wf(),
    ensures
        after_steps(s, deltas).wf(),
        is_legal_pair(after_steps(s, deltas).color_a, after_steps(s, deltas).color_b),
        0 <= after_steps(s, deltas).simulated <= FULL_DAY_MICROS,
    decreases deltas.len(),
{
    if deltas.len() > 0 {
        lemma_step_keeps_wf(s, deltas[0]);
        lemma_steps_stay_legal(s.stepped(deltas[0]), deltas.drop_first());
    }
}

/// Over any sequence of steps neither the simulated time nor the accumulated
/// latency decreases.
pub proof fn lemma_steps_monotonic(s: ClockState, deltas: Seq<nat>)
    requires
        s.wf(),
    ensures
        after_steps(s, deltas).simulated >= s.simulated,
        after_steps(s, deltas).latency >= s.latency,
    decreases deltas.len(),
{
    if deltas.len() > 0 {
        lemma_step_keeps_wf(s, deltas[0]);
        lemma_steps_monotonic(s.stepped(deltas[0]), deltas.drop_first());
    }
}

/// A complete run stays exactly as it is, whatever steps follow.
pub proof fn lemma_complete_is_final(s: ClockState, deltas: Seq<nat>)
    requires
        s.complete,
    ensures
        after_steps(s, deltas) == s,
    decreases deltas.len(),
{
    if deltas.len() > 0 {
        lemma_complete_is_final(s.stepped(deltas[0]), deltas.drop_first());
    }
}

/// A step that carries the clock from before noon to noon or later judges the
/// running phase by the long duration: it expires only once the phase timer has
/// reached that duration, and then adds the long phase's latency and takes the
/// long duration off the timer.
pub proof fn lemma_noon_switches_duration(s: ClockState, real_delta: nat)
    requires
        s.wf(),
        !s.complete,
        s.simulated < HALF_DAY_MICROS,
        s.simulated + real_delta * SIMULATION_SPEEDUP_FACTOR >= HALF_DAY_MICROS,
    ensures
        ({
            let t = s.stepped(real_delta);
            let timer = s.phase_timer + real_delta * SIMULATION_SPEEDUP_FACTOR;
            &&& timer >= LONG_PHASE_MICROS ==> {
                &&& t.latency == s.latency + 36_000_000
                &&& t.phase_timer == timer - LONG_PHASE_MICROS
                &&& (t.color_a, t.color_b) == next_pair(s.color_a, s.color_b)
            }
            &&& timer < LONG_PHASE_MICROS ==> {
                &&& t.latency == s.latency
                &&& t.phase_timer == timer
                &&& t.color_a == s.color_a
                &&& t.color_b == s.color_b
            }
        }),
{
}

/// A phase that expires before noon adds exactly twelve seconds of latency
/// (sixty seconds times the factor's excess of 0.2), once.
pub proof fn lemma_short_phase_latency(s: ClockState, real_delta: nat)
    requires
        s.wf(),
        !s.complete,
        s.simulated + real_delta * SIMULATION_SPEEDUP_FACTOR < HALF_DAY_MICROS,
        s.phase_timer + real_delta * SIMULATION_SPEEDUP_FACTOR >= SHORT_PHASE_MICROS,
    ensures
        s.stepped(real_delta).latency == s.latency + 12_000_000,
        s.stepped(real_delta).phase_timer == s.phase_timer + real_delta
            * SIMULATION_SPEEDUP_FACTOR - SHORT_PHASE_MICROS,
{
}

/// Before noon, four steps of exactly one phase each, from a phase timer at zero,
/// bring the pair back to where it started, each step moving it on once and adding
/// one phase's latency.
pub proof fn lemma_full_cycle(s: ClockState)
    requires
        s.wf(),
        !s.complete,
        s.phase_timer == 0,
        s.simulated + 4 * SHORT_PHASE_MICROS < HALF_DAY_MICROS,
    ensures
        ({
            let d = (SHORT_PHASE_MICROS / SIMULATION_SPEEDUP_FACTOR) as nat;
            let s1 = s.stepped(d);
            let s2 = s1.stepped(d);
            let s3 = s2.stepped(d);
            let s4 = s3.stepped(d);
            &&& (s1.color_a, s1.color_b) == next_pair(s.color_a, s.color_b)
            &&& (s2.color_a, s2.color_b) == next_pair(s1.color_a, s1.color_b)
            &&& (s3.color_a, s3.color_b) == next_pair(s2.color_a, s2.color_b)
            &&& (s4.color_a, s4.color_b) == next_pair(s3.color_a, s3.color_b)
            &&& s4.color_a == s.color_a
            &&& s4.color_b == s.color_b
            &&& s1.latency == s.latency + 12_000_000
            &&& s2.latency == s1.latency + 12_000_000
            &&& s3.latency == s2.latency + 12_000_000
            &&& s4.latency == s3.latency + 12_000_000
            &&& s4.phase_timer == 0
            &&& s4.simulated == s.simulated + 4 * SHORT_PHASE_MICROS
            &&& after_steps(s, seq![d, d, d, d]) == s4
        }),
{
    let d = (SHORT_PHASE_MICROS / SIMULATION_SPEEDUP_FACTOR) as nat;
    assert(d * SIMULATION_SPEEDUP_FACTOR == SHORT_PHASE_MICROS);
    lemma_cycle_returns(s.color_a, s.color_b);
    let s1 = s.stepped(d);
    let s2 = s1.stepped(d);
    let s3 = s2.stepped(d);
    let s4 = s3.stepped(d);
    assert(s1.phase_timer == 0 && s1.simulated == s.simulated + SHORT_PHASE_MICROS);
    assert(s2.phase_timer == 0 && s2.simulated == s.simulated + 2 * SHORT_PHASE_MICROS);
    assert(s3.phase_timer == 0 && s3.simulated == s.simulated + 3 * SHORT_PHASE_MICROS);
    assert(s4.phase_timer == 0 && s4.simulated == s.simulated + 4 * SHORT_PHASE_MICROS);
    let deltas = seq![d, d, d, d];
    let r1 = deltas.drop_first();
    let r2 = r1.drop_first();
    let r3 = r2.drop_first();
    let r4 = r3.drop_first();
    assert(r1 =~= seq![d, d, d]);
    assert(r2 =~= seq![d, d]);
    assert(r3 =~= seq![d]);
    assert(r4 =~= Seq::<nat>::empty());
    assert(after_steps(s4, r4) == s4);
    assert(after_steps(s3, r3) == s4);
    assert(after_steps(s2, r2) == s4);
    assert(after_steps(s1, r1) == s4);
    assert(after_steps(s, deltas) == s4);
}

/// A step that brings the simulated time to the end of the day or past it
/// completes the run and leaves the clock at exactly the end of the day.
pub proof fn lemma_day_end_completes(s: ClockState, real_delta: nat)
    requires
        s.wf(),
        !s.complete,
        s.simulated + real_delta * SIMULATION_SPEEDUP_FACTOR >= FULL_DAY_MICROS,
    ensures
        s.stepped(real_delta).complete,
        s.stepped(real_delta).simulated == FULL_DAY_MICROS,
{
}

} // verus!
