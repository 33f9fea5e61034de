use vstd::prelude::*;

verus! {

/// Microseconds in one hour.
pub const MICROS_PER_HOUR: u64 = 3_600_000_000;

/// Microseconds in one minute.
pub const MICROS_PER_MINUTE: u64 = 60_000_000;

/// A simulated time as a clock reading: whole hours, whole minutes within the hour,
/// and the microseconds within the minute.
pub fn time_of_day(simulated_micros: u64) -> (r: (u64, u64, u64))
    ensures
        r.0 == simulated_micros / MICROS_PER_HOUR,
        r.1 == (simulated_micros % MICROS_PER_HOUR) / MICROS_PER_MINUTE,
        r.2 == simulated_micros % MICROS_PER_MINUTE,
        r.1 < 60,
        r.0 * MICROS_PER_HOUR + r.1 * MICROS_PER_MINUTE + r.2 == simulated_micros,
{
    let hours = simulated_micros / MICROS_PER_HOUR;
    let within_hour = simulated_micros % MICROS_PER_HOUR;
    let minutes = within_hour / MICROS_PER_MINUTE;
    let within_minute = within_hour % MICROS_PER_MINUTE;
    assert(within_minute == simulated_micros % MICROS_PER_MINUTE) by (nonlinear_arith)
        requires
            within_hour == simulated_micros % MICROS_PER_HOUR,
            within_minute == within_hour % MICROS_PER_MINUTE,
            MICROS_PER_HOUR == 60 * MICROS_PER_MINUTE,
            MICROS_PER_MINUTE > 0,
    ;
    (hours, minutes, within_minute)
}

} // verus!
