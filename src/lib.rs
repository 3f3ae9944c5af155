//! A time-based value interpolation engine: it animates a fixed-point number
//! from a start value to an end value over a duration, with an optional
//! ease-out curve, a two-phase "smart easing" for large jumps, pausing,
//! resetting and re-targeting while in flight.
//!
//! The engine does no I/O: each operation returns the effects that the host
//! should carry out (display a value, schedule or cancel a tick, fire the start
//! or completion notification).

pub mod curve;
pub mod engine;
pub mod laws;

pub use curve::Phase;
pub use engine::{AnimationConfig, CountUp, CountUpError, Effects, Status, MAX_VALUE};
