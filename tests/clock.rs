use traffic_lights::clock::{
    TrafficLightApp, FULL_DAY_MICROS, HALF_DAY_MICROS, LONG_PHASE_MICROS, SHORT_PHASE_MICROS,
};
use traffic_lights::color::{lit_lamps, next_colors, TrafficLightColor};
use traffic_lights::display::time_of_day;

use TrafficLightColor::{Green, Red, Yellow};

const ONE_REAL_SECOND: u64 = 1_000_000;

fn is_legal(a: TrafficLightColor, b: TrafficLightColor) -> bool {
    matches!((a, b), (Green, Red) | (Yellow, Red) | (Red, Green) | (Red, Yellow))
}

#[test]
fn fresh_run_starts_green_red() {
    let app = TrafficLightApp::default();
    assert_eq!(app.color_a(), Green);
    assert_eq!(app.color_b(), Red);
    assert_eq!(app.simulated_micros(), 0);
    assert_eq!(app.phase_timer_micros(), 0);
    assert_eq!(app.total_latency_micros(), 0);
    assert!(!app.is_complete());
}

#[test]
fn cycle_table() {
    assert_eq!(next_colors(Green, Red), (Yellow, Red));
    assert_eq!(next_colors(Yellow, Red), (Red, Green));
    assert_eq!(next_colors(Red, Green), (Red, Yellow));
    assert_eq!(next_colors(Red, Yellow), (Green, Red));
}

#[test]
fn illegal_pair_is_left_unchanged() {
    assert_eq!(next_colors(Green, Green), (Green, Green));
    assert_eq!(next_colors(Yellow, Yellow), (Yellow, Yellow));
    assert_eq!(next_colors(Red, Red), (Red, Red));
    assert_eq!(next_colors(Green, Yellow), (Green, Yellow));
}

#[test]
fn one_lamp_lit_per_colour() {
    assert_eq!(lit_lamps(Red), (true, false, false));
    assert_eq!(lit_lamps(Yellow), (false, true, false));
    assert_eq!(lit_lamps(Green), (false, false, true));
}

#[test]
fn short_step_advances_without_transition() {
    let mut app = TrafficLightApp::new();
    app.run_simulation_step(500_000);
    assert_eq!(app.simulated_micros(), 30_000_000);
    assert_eq!(app.phase_timer_micros(), 30_000_000);
    assert_eq!((app.color_a(), app.color_b()), (Green, Red));
    assert_eq!(app.total_latency_micros(), 0);
}

#[test]
fn zero_delta_changes_nothing() {
    let mut app = TrafficLightApp::new();
    app.run_simulation_step(0);
    assert_eq!(app.simulated_micros(), 0);
    assert_eq!(app.phase_timer_micros(), 0);
    assert_eq!((app.color_a(), app.color_b()), (Green, Red));
}

#[test]
fn latency_accrues_once_per_short_phase() {
    let mut app = TrafficLightApp::new();
    app.run_simulation_step(ONE_REAL_SECOND);
    assert_eq!(app.total_latency_micros(), 12_000_000);
    assert_eq!(app.phase_timer_micros(), 0);
    assert_eq!((app.color_a(), app.color_b()), (Yellow, Red));
}

#[test]
fn overshoot_is_carried_and_one_transition_per_step() {
    let mut app = TrafficLightApp::new();
    // 150 simulated seconds: one phase expires, 90 s are carried over.
    app.run_simulation_step(2_500_000);
    assert_eq!((app.color_a(), app.color_b()), (Yellow, Red));
    assert_eq!(app.phase_timer_micros(), 90_000_000);
    assert_eq!(app.total_latency_micros(), 12_000_000);
    // The carried time expires the next phase on the next step.
    app.run_simulation_step(0);
    assert_eq!((app.color_a(), app.color_b()), (Red, Green));
    assert_eq!(app.phase_timer_micros(), 30_000_000);
    assert_eq!(app.total_latency_micros(), 24_000_000);
}

#[test]
fn full_cycle_returns_to_green_red() {
    let mut app = TrafficLightApp::new();
    let expected = [(Yellow, Red), (Red, Green), (Red, Yellow), (Green, Red)];
    let mut latency = 0;
    for pair in expected {
        app.run_simulation_step(ONE_REAL_SECOND);
        latency += 12_000_000;
        assert_eq!((app.color_a(), app.color_b()), pair);
        assert_eq!(app.total_latency_micros(), latency);
    }
    assert_eq!(app.total_latency_micros(), 48_000_000);
    assert_eq!(app.simulated_micros(), 4 * SHORT_PHASE_MICROS);
}

#[test]
fn phase_crossing_noon_uses_long_duration() {
    let mut app = TrafficLightApp::starting_at(43_100_000_000).unwrap();
    // 120 simulated seconds: past noon, past 60 s, short of 180 s.
    app.run_simulation_step(2 * ONE_REAL_SECOND);
    assert_eq!(app.simulated_micros(), 43_220_000_000);
    assert_eq!((app.color_a(), app.color_b()), (Green, Red));
    assert_eq!(app.total_latency_micros(), 0);
    assert_eq!(app.phase_timer_micros(), 120_000_000);
    // 60 more: the phase expires at 180 s and accrues 180 * 0.2 = 36 s.
    app.run_simulation_step(ONE_REAL_SECOND);
    assert_eq!((app.color_a(), app.color_b()), (Yellow, Red));
    assert_eq!(app.total_latency_micros(), 36_000_000);
    assert_eq!(app.phase_timer_micros(), 0);
}

#[test]
fn noon_itself_uses_long_duration() {
    let mut app = TrafficLightApp::starting_at(HALF_DAY_MICROS - SHORT_PHASE_MICROS).unwrap();
    app.run_simulation_step(ONE_REAL_SECOND);
    assert_eq!(app.simulated_micros(), HALF_DAY_MICROS);
    assert_eq!((app.color_a(), app.color_b()), (Green, Red));
    assert_eq!(app.phase_timer_micros(), SHORT_PHASE_MICROS as u128);
}

#[test]
fn reaching_day_end_exactly_completes() {
    let mut app = TrafficLightApp::starting_at(FULL_DAY_MICROS - SHORT_PHASE_MICROS).unwrap();
    app.run_simulation_step(ONE_REAL_SECOND);
    assert!(app.is_complete());
    assert_eq!(app.simulated_micros(), FULL_DAY_MICROS);
}

#[test]
fn overshooting_day_end_is_clamped() {
    let mut app = TrafficLightApp::starting_at(FULL_DAY_MICROS - SHORT_PHASE_MICROS).unwrap();
    app.run_simulation_step(10 * ONE_REAL_SECOND);
    assert!(app.is_complete());
    assert_eq!(app.simulated_micros(), FULL_DAY_MICROS);
    // One long phase expired on the way: 180 * 0.2 = 36 s.
    assert_eq!(app.total_latency_micros(), 36_000_000);
}

#[test]
fn largest_delta_completes_without_overflow() {
    let mut app = TrafficLightApp::new();
    app.run_simulation_step(u64::MAX);
    assert!(app.is_complete());
    assert_eq!(app.simulated_micros(), FULL_DAY_MICROS);
    assert_eq!(app.total_latency_micros(), 36_000_000);
    assert_eq!(
        app.phase_timer_micros(),
        u64::MAX as u128 * 60 - LONG_PHASE_MICROS as u128
    );
}

#[test]
fn complete_run_does_not_change() {
    let mut app = TrafficLightApp::new();
    app.run_simulation_step(1_440 * ONE_REAL_SECOND);
    assert!(app.is_complete());
    let before = (
        app.color_a(),
        app.color_b(),
        app.simulated_micros(),
        app.phase_timer_micros(),
        app.total_latency_micros(),
    );
    for delta in [0, 1, ONE_REAL_SECOND, 1_000 * ONE_REAL_SECOND] {
        app.run_simulation_step(delta);
        assert!(app.is_complete());
        let after = (
            app.color_a(),
            app.color_b(),
            app.simulated_micros(),
            app.phase_timer_micros(),
            app.total_latency_micros(),
        );
        assert_eq!(after, before);
    }
}

#[test]
fn starting_at_end_of_day_is_complete() {
    let app = TrafficLightApp::starting_at(FULL_DAY_MICROS).unwrap();
    assert!(app.is_complete());
    assert!(TrafficLightApp::starting_at(FULL_DAY_MICROS + 1).is_none());
}

#[test]
fn run_stays_legal_and_monotonic() {
    let mut app = TrafficLightApp::new();
    let deltas = [16_667, 0, 1_000_000, 3_500_000, 250_000, 7_000_000, 123_456, 600_000_000];
    let mut last_simulated = app.simulated_micros();
    let mut last_latency = app.total_latency_micros();
    for round in 0..200 {
        let delta = deltas[round % deltas.len()];
        app.run_simulation_step(delta);
        assert!(is_legal(app.color_a(), app.color_b()));
        assert!(app.simulated_micros() <= FULL_DAY_MICROS);
        assert!(app.simulated_micros() >= last_simulated);
        assert!(app.total_latency_micros() >= last_latency);
        assert_eq!(app.is_complete(), app.simulated_micros() == FULL_DAY_MICROS);
        last_simulated = app.simulated_micros();
        last_latency = app.total_latency_micros();
    }
    assert!(app.is_complete());
}

#[test]
fn whole_day_in_phase_sized_steps() {
    let mut app = TrafficLightApp::new();
    let mut steps = 0;
    while !app.is_complete() {
        app.run_simulation_step(ONE_REAL_SECOND);
        steps += 1;
    }
    assert_eq!(steps, 1_440);
    assert_eq!(app.simulated_micros(), FULL_DAY_MICROS);
    // 719 short phases expire before noon; from noon on, 240 long ones.
    assert_eq!(app.total_latency_micros(), 719 * 12_000_000 + 240 * 36_000_000);
}

#[test]
fn clock_reading() {
    assert_eq!(time_of_day(0), (0, 0, 0));
    assert_eq!(time_of_day(43_100_000_000), (11, 58, 20_000_000));
    assert_eq!(time_of_day(3_723_500_000), (1, 2, 3_500_000));
    assert_eq!(time_of_day(FULL_DAY_MICROS), (24, 0, 0));
}
