//! A deterministic, fixed-timestep breakout arena simulation.
//!
//! The simulation works on exact integer arithmetic: every coordinate is
//! stored scaled by a fixed even factor (`TickParams::scale`), and the tick
//! duration is a rational number whose denominator divides that factor, so
//! that paddle displacement, brick-grid placement (including the halvings of
//! brick sizes and wall spans) and ball integration are all computed exactly,
//! with no drift over any number of ticks.
//!
//! Module map:
//! - [`timestep`]: the scale / tick-duration parameters and exact scaling.
//! - [`layout`]: brick-grid placement computed once at startup.
//! - [`paddle`]: per-tick paddle motion with clamping to the arena bounds.
//! - [`ball`]: per-tick linear velocity integration.
//! - [`world`]: the whole arena, validated at startup and stepped per tick.

use vstd::prelude::*;

pub mod ball;
pub mod layout;
pub mod paddle;
pub mod timestep;
pub mod world;

verus! {

/// Largest magnitude accepted for an unscaled configuration value (a wall
/// coordinate, a brick size, a gap, a speed). Keeping raw inputs within this
/// bound keeps every scaled product the simulation forms within `i64`.
pub const UNIT_LIMIT: i64 = 1_000_000;

/// Largest accepted coordinate scale factor.
pub const SCALE_LIMIT: u32 = 1_000_000;

/// Largest accepted tick-duration numerator or denominator.
pub const TIME_LIMIT: u32 = 1_000_000;

/// Largest magnitude of a scaled coordinate the paddle bounds or brick
/// centers may take. Wide enough for any valid configuration, small enough
/// that sums with a paddle step stay within `i64`.
pub const COORD_LIMIT: i64 = 10_000_000_000_000;

/// Largest paddle displacement per tick, in scaled units. This is the
/// largest value `speed * dt * scale` can take for valid parameters.
pub const STEP_LIMIT: i64 = 1_000_000_000_000_000_000;

/// A configuration rejected when the simulation is built. Validation happens
/// once at startup; the per-tick functions then never fail.
#[derive(Clone, Copy, Debug, PartialEq, Eq, Structural)]
pub enum ConfigError {
    /// The coordinate scale is zero.
    ScaleZero,
    /// The coordinate scale is odd, so half sizes would not be exact.
    ScaleOdd,
    /// The coordinate scale exceeds `SCALE_LIMIT`.
    ScaleTooLarge,
    /// The tick-duration numerator is zero.
    DtNumZero,
    /// The tick-duration numerator exceeds `TIME_LIMIT`.
    DtNumTooLarge,
    /// The tick-duration denominator is zero.
    DtDenZero,
    /// The tick-duration denominator exceeds `TIME_LIMIT`.
    DtDenTooLarge,
    /// The tick-duration denominator does not divide the scale, so per-tick
    /// displacements would not be exact in scaled units.
    DtDenNotDividingScale,
    /// A raw grid coordinate, size or gap lies outside `[-UNIT_LIMIT, UNIT_LIMIT]`.
    GridValueOutOfRange,
    /// A brick dimension is zero or negative.
    BrickSizeNonPositive,
    /// A gap constant is negative.
    GapNegative,
    /// The available width holds no whole brick column.
    ZeroColumns,
    /// The available height holds no whole brick row.
    ZeroRows,
    /// A raw paddle value (width, thickness, padding, speed, start) lies
    /// outside `[-UNIT_LIMIT, UNIT_LIMIT]`.
    PaddleValueOutOfRange,
    /// The paddle speed is negative.
    SpeedNegative,
    /// The derived left bound exceeds the derived right bound, so there is
    /// no position the paddle could take.
    BoundsReversed,
    /// A raw ball start coordinate lies outside `[-UNIT_LIMIT, UNIT_LIMIT]`.
    BallValueOutOfRange,
}

/// `v` clamped into the closed interval `[lo, hi]`.
pub open spec fn clamped(v: int, lo: int, hi: int) -> int {
    if v < lo {
        lo
    } else if v > hi {
        hi
    } else {
        v
    }
}

} // verus!
