//! Fixed-point conventions shared by the whole library.
//!
//! The camera and the reporter work in *micro*-units: one world unit,
//! one radian, or one second is `SCALE` of them. All quantities are
//! plain `i64` counts of micro-units, so every computation here is
//! exact integer arithmetic.

use vstd::prelude::*;

verus! {

/// Micro-units per world unit, per radian, and per second.
pub const SCALE: i64 = 1_000_000;

/// Largest accepted frame time delta, in micro-seconds (a machine
/// limit, far beyond any real frame: about eleven days).
pub const MAX_DT: i64 = 1_000_000_000_000;

/// Largest coordinate magnitude the library accepts, in micro-units
/// (a machine limit keeping squares of differences inside `i128`).
pub const POS_RANGE: i64 = 1_000_000_000_000_000_000;

/// A point or direction in world space, in micro-units per component.
///
/// The vertical axis is `y`; the ground plane is spanned by `x` and `z`.
#[derive(Clone, Copy, PartialEq, Eq, Structural, Debug)]
pub struct Vec3 {
    pub x: i64,
    pub y: i64,
    pub z: i64,
}

/// Every component within the range the library accepts.
pub open spec fn vec3_in_range(v: Vec3) -> bool {
    &&& -POS_RANGE <= v.x <= POS_RANGE
    &&& -POS_RANGE <= v.y <= POS_RANGE
    &&& -POS_RANGE <= v.z <= POS_RANGE
}

/// A direction taken from a unit vector: each component has magnitude
/// at most one world unit.
pub open spec fn dir_in_range(v: Vec3) -> bool {
    &&& -SCALE <= v.x <= SCALE
    &&& -SCALE <= v.y <= SCALE
    &&& -SCALE <= v.z <= SCALE
}

/// Mathematical clamp of `v` to the interval `[lo, hi]`.
pub open spec fn clamp_int(v: int, lo: int, hi: int) -> int {
    if v < lo {
        lo
    } else if v > hi {
        hi
    } else {
        v
    }
}

/// Clamp of an `i64` value to `[lo, hi]`.
pub fn clamp_i64(v: i64, lo: i64, hi: i64) -> (r: i64)
    requires
        lo <= hi,
    ensures
        r == clamp_int(v as int, lo as int, hi as int),
{
    if v < lo {
        lo
    } else if v > hi {
        hi
    } else {
        v
    }
}

} // verus!
