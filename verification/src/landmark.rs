//! The proximity side effect: when the camera comes within a fixed
//! radius of the landmark pillar, the pillar's material switches to
//! its highlighted colour; otherwise it shows its normal colour.
//!
//! Distances are compared through their squares, which on
//! non-negative numbers orders exactly as the distances themselves,
//! so no root is ever taken.

use vstd::prelude::*;
use crate::units::vec3_in_range;
use crate::units::Vec3;

verus! {

/// The landmark pillar's position, in micro-units: ten world units up.
pub const LANDMARK_X: i64 = 0;

pub const LANDMARK_Y: i64 = 10_000_000;

pub const LANDMARK_Z: i64 = 0;

/// The highlight distance, in micro-units: thirty world units.
pub const ACTION_RADIUS: i64 = 30_000_000;

/// The colour state of the landmark's material.
#[derive(Clone, Copy, PartialEq, Eq, Structural, Debug)]
pub enum Tint {
    Highlighted,
    Normal,
}

/// Squared distance between two points, exact.
pub open spec fn dist_sq(a: Vec3, b: Vec3) -> int {
    (a.x - b.x) * (a.x - b.x) + (a.y - b.y) * (a.y - b.y) + (a.z - b.z) * (a.z - b.z)
}

/// The landmark's position as a point.
pub fn landmark_position() -> (r: Vec3)
    ensures
        r == (Vec3 { x: LANDMARK_X, y: LANDMARK_Y, z: LANDMARK_Z }),
        vec3_in_range(r),
{
    Vec3 { x: LANDMARK_X, y: LANDMARK_Y, z: LANDMARK_Z }
}

/// Pick the landmark's tint for a camera position: highlighted
/// exactly when the camera is strictly within `radius` of the
/// landmark.
pub fn tint_for(pos: &Vec3, landmark: &Vec3, radius: i64) -> (r: Tint)
    requires
        vec3_in_range(*pos),
        vec3_in_range(*landmark),
        0 <= radius,
    ensures
        (r == Tint::Highlighted) == (dist_sq(*pos, *landmark) < radius * radius),
        (r == Tint::Normal) == !(dist_sq(*pos, *landmark) < radius * radius),
{
    let dx: i128 = pos.x as i128 - landmark.x as i128;
    let dy: i128 = pos.y as i128 - landmark.y as i128;
    let dz: i128 = pos.z as i128 - landmark.z as i128;
    proof {
        lemma_square_bounded(dx as int);
        lemma_square_bounded(dy as int);
        lemma_square_bounded(dz as int);
        assert((radius as int) * (radius as int) <= 0x4000_0000_0000_0000_0000_0000_0000_0000)
            by (nonlinear_arith)
            requires
                0 <= radius <= 0x7fff_ffff_ffff_ffff,
        ;
    }
    let s: i128 = dx * dx + dy * dy + dz * dz;
    let rr: i128 = (radius as i128) * (radius as i128);
    if s < rr {
        Tint::Highlighted
    } else {
        Tint::Normal
    }
}

/// The square of a coordinate difference is non-negative and small
/// enough to sum three of them inside `i128`.
proof fn lemma_square_bounded(d: int)
    requires
        -2_000_000_000_000_000_000 <= d <= 2_000_000_000_000_000_000,
    ensures
        0 <= d * d <= 4_000_000_000_000_000_000_000_000_000_000_000_000,
{
    assert(0 <= d * d <= 4_000_000_000_000_000_000_000_000_000_000_000_000) by (nonlinear_arith)
        requires
            -2_000_000_000_000_000_000 <= d <= 2_000_000_000_000_000_000,
    ;
}

impl Tint {
    /// The solid colour carried by this tint: red when highlighted,
    /// blue when normal.
    pub fn rgb(&self) -> (r: (u8, u8, u8))
        ensures
            *self == Tint::Highlighted ==> r == (255u8, 0u8, 0u8),
            *self == Tint::Normal ==> r == (0u8, 0u8, 255u8),
    {
        match self {
            Tint::Highlighted => (255, 0, 0),
            Tint::Normal => (0, 0, 255),
        }
    }
}

} // verus!
