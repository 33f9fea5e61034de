//! Two coupled traffic lights that step through a fixed four-phase cycle on an
//! accelerated simulated clock, until a simulated day has passed.

pub mod clock;
pub mod color;
pub mod display;
pub mod laws;
