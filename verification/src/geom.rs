//! World geometry: integer coordinates, the clamp used to confine the
//! player, and the bounds every quantity of the world obeys so that the
//! arithmetic of the systems cannot overflow.

use vstd::prelude::*;

verus! {

/// Upper bound on arena dimensions, entity sizes and speeds (world units).
pub const UNIT_MAX: i64 = 1_000_000;

/// Upper bound on the magnitude of a position coordinate.
pub const POS_MAX: i64 = 1_000_000_000_000_000;

/// Upper bound on a frame's elapsed time in milliseconds.
pub const DELTA_MAX_MS: i64 = 10_000_000;

/// Largest displacement one frame of player movement can produce:
/// `UNIT_MAX * DELTA_MAX_MS / 1000`.
pub const STEP_MAX: i64 = 10_000_000_000;

/// A two-dimensional vector of world units.
#[derive(Clone, Copy, Debug, PartialEq, Eq, Structural)]
pub struct Vec2 {
    pub x: i64,
    pub y: i64,
}

/// A coordinate within the representable world.
pub open spec fn pos_ok(v: int) -> bool {
    -POS_MAX <= v && v <= POS_MAX
}

/// A size, speed or arena dimension within range.
pub open spec fn unit_ok(v: int) -> bool {
    0 <= v && v <= UNIT_MAX
}

/// A velocity component within range.
pub open spec fn vel_ok(v: int) -> bool {
    -UNIT_MAX <= v && v <= UNIT_MAX
}

/// The if/else-if clamp of the confinement system: a value below the lower
/// bound resolves to the lower bound even when the bounds are inverted.
pub open spec fn clamp_axis(v: int, lo: int, hi: int) -> int {
    if v < lo {
        lo
    } else if v > hi {
        hi
    } else {
        v
    }
}

/// Half of a nonnegative quantity, rounding toward zero.
pub fn half(v: i64) -> (r: i64)
    requires
        v >= 0,
    ensures
        r == v as int / 2,
        0 <= r <= v,
{
    ((v as u64) / 2) as i64
}

/// Clamp a coordinate with the if/else-if pattern of the confinement
/// system.
pub fn clamp_coord(v: i64, lo: i64, hi: i64) -> (r: i64)
    ensures
        r == clamp_axis(v as int, lo as int, hi as int),
{
    if v < lo {
        lo
    } else if v > hi {
        hi
    } else {
        v
    }
}

} // verus!
