use vstd::prelude::*;

verus! {

/// The colour one light shows.
#[derive(Clone, Copy, Debug, PartialEq, Eq, Structural)]
pub enum TrafficLightColor {
    Red,
    Yellow,
    Green,
}

/// The four combinations that the two lights may show together.
pub open spec fn is_legal_pair(a: TrafficLightColor, b: TrafficLightColor) -> bool {
    ||| (a == TrafficLightColor::Green && b == TrafficLightColor::Red)
    ||| (a == TrafficLightColor::Yellow && b == TrafficLightColor::Red)
    ||| (a == TrafficLightColor::Red && b == TrafficLightColor::Green)
    ||| (a == TrafficLightColor::Red && b == TrafficLightColor::Yellow)
}

/// The cycle Green/Red -> Yellow/Red -> Red/Green -> Red/Yellow -> Green/Red.
/// A pair outside the cycle is left as it is.
pub open spec fn next_pair(a: TrafficLightColor, b: TrafficLightColor) -> (
    TrafficLightColor,
    TrafficLightColor,
) {
    match (a, b) {
        (TrafficLightColor::Green, TrafficLightColor::Red) => (
            TrafficLightColor::Yellow,
            TrafficLightColor::Red,
        ),
        (TrafficLightColor::Yellow, TrafficLightColor::Red) => (
            TrafficLightColor::Red,
            TrafficLightColor::Green,
        ),
        (TrafficLightColor::Red, TrafficLightColor::Green) => (
            TrafficLightColor::Red,
            TrafficLightColor::Yellow,
        ),
        (TrafficLightColor::Red, TrafficLightColor::Yellow) => (
            TrafficLightColor::Green,
            TrafficLightColor::Red,
        ),
        _ => (a, b),
    }
}

/// The pair that follows `(a, b)` in the cycle; an illegal pair comes back unchanged.
pub fn next_colors(a: TrafficLightColor, b: TrafficLightColor) -> (r: (
    TrafficLightColor,
    TrafficLightColor,
))
    ensures
        r == next_pair(a, b),
        is_legal_pair(a, b) ==> is_legal_pair(r.0, r.1) && r != (a, b),
        !is_legal_pair(a, b) ==> r == (a, b),
{
    match (a, b) {
        (TrafficLightColor::Green, TrafficLightColor::Red) => (
            TrafficLightColor::Yellow,
            TrafficLightColor::Red,
        ),
        (TrafficLightColor::Yellow, TrafficLightColor::Red) => (
            TrafficLightColor::Red,
            TrafficLightColor::Green,
        ),
        (TrafficLightColor::Red, TrafficLightColor::Green) => (
            TrafficLightColor::Red,
            TrafficLightColor::Yellow,
        ),
        (TrafficLightColor::Red, TrafficLightColor::Yellow) => (
            TrafficLightColor::Green,
            TrafficLightColor::Red,
        ),
        _ => (a, b),
    }
}

/// Which of a fixture's three lamps (red, yellow, green, top to bottom) are lit
/// when the light shows `active`: exactly the one of that colour.
pub fn lit_lamps(active: TrafficLightColor) -> (r: (bool, bool, bool))
    ensures
        r.0 <==> active == TrafficLightColor::Red,
        r.1 <==> active == TrafficLightColor::Yellow,
        r.2 <==> active == TrafficLightColor::Green,
{
    (
        active == TrafficLightColor::Red,
        active == TrafficLightColor::Yellow,
        active == TrafficLightColor::Green,
    )
}

} // verus!
