//! The camera controller: once per frame it turns the current key
//! signals, the elapsed time, and the camera's direction axes into a
//! new orientation and position, clamped to the world bounds.
//!
//! Angles are micro-radians, positions micro-units, time deltas
//! micro-seconds (see `units`). The angular rate is one radian per
//! second per held key and the speed one world unit per second, so in
//! micro-units both rates are exactly one per micro-second.
//!
//! Opposing keys of a pair cancel to zero — one policy for rotation
//! and translation alike.
//!
//! The host derives the `right` and `forward` direction vectors from
//! the camera's orientation; the controller flattens movement onto the
//! ground plane by ignoring their vertical components entirely, so no
//! movement key ever changes the altitude.

use vstd::prelude::*;
use vstd::arithmetic::div_mod::lemma_div_is_ordered;
use vstd::arithmetic::mul::lemma_mul_inequality;
use vstd::arithmetic::mul::lemma_mul_is_distributive_add;
use vstd::arithmetic::mul::lemma_mul_nonnegative;
use vstd::arithmetic::mul::lemma_mul_upper_bound;
use vstd::math::max;
use vstd::math::min;
use vstd::wrapping::i64_specs;
use crate::grid::Grid;
use crate::units::clamp_i64;
use crate::units::clamp_int;
use crate::units::dir_in_range;
use crate::units::vec3_in_range;
use crate::units::Vec3;
use crate::units::MAX_DT;
use crate::units::POS_RANGE;
use crate::units::SCALE;

verus! {

/// The pitch limit, in micro-radians: a hundredth of a radian short
/// of a right angle, keeping the camera away from the poles.
pub const PITCH_LIMIT: i64 = 1_560_796;

/// The eight directional key signals, read fresh each frame from the
/// host's input layer.
#[derive(Clone, Copy, PartialEq, Eq, Structural, Debug)]
pub struct InputSnapshot {
    pub yaw_left: bool,
    pub yaw_right: bool,
    pub pitch_up: bool,
    pub pitch_down: bool,
    pub strafe_left: bool,
    pub strafe_right: bool,
    pub move_forward: bool,
    pub move_back: bool,
}

/// Yaw, pitch and roll in micro-radians, composed in the fixed
/// yaw-about-up, pitch-about-right, roll-about-forward order.
#[derive(Clone, Copy, PartialEq, Eq, Structural, Debug)]
pub struct Orientation {
    pub yaw: i64,
    pub pitch: i64,
    pub roll: i64,
}

/// The horizontal half-extents of the world, in micro-units: the
/// camera's x stays within `[-half_x, half_x]` and its z within
/// `[-half_z, half_z]`.
#[derive(Clone, Copy, PartialEq, Eq, Structural, Debug)]
pub struct WorldBounds {
    pub half_x: i64,
    pub half_z: i64,
}

/// The camera's whole mutable state: orientation and position.
#[derive(Clone, Copy, PartialEq, Eq, Structural, Debug)]
pub struct CameraState {
    pub orientation: Orientation,
    pub position: Vec3,
}

/// The pitch invariant: always within the limits.
pub open spec fn pitch_in_limits(o: Orientation) -> bool {
    -PITCH_LIMIT <= o.pitch <= PITCH_LIMIT
}

/// Signed yaw rate from the key signals: opposing keys cancel.
pub open spec fn yaw_rate(k: InputSnapshot) -> int {
    (if k.yaw_left {
        1int
    } else {
        0int
    }) - (if k.yaw_right {
        1int
    } else {
        0int
    })
}

/// Signed pitch rate from the key signals: opposing keys cancel.
pub open spec fn pitch_rate(k: InputSnapshot) -> int {
    (if k.pitch_up {
        1int
    } else {
        0int
    }) - (if k.pitch_down {
        1int
    } else {
        0int
    })
}

/// Signed strafe rate: positive toward the camera's right.
pub open spec fn strafe_rate(k: InputSnapshot) -> int {
    (if k.strafe_right {
        1int
    } else {
        0int
    }) - (if k.strafe_left {
        1int
    } else {
        0int
    })
}

/// Signed walk rate: positive along the flattened forward direction.
pub open spec fn move_rate(k: InputSnapshot) -> int {
    (if k.move_forward {
        1int
    } else {
        0int
    }) - (if k.move_back {
        1int
    } else {
        0int
    })
}

/// The orientation after one update: yaw advances freely (wrapping at
/// the numeric range), pitch advances and is clamped to the limits,
/// roll passes through unchanged.
pub open spec fn spec_turned(o: Orientation, k: InputSnapshot, dt: int) -> Orientation {
    Orientation {
        yaw: i64_specs::wrapping_add(o.yaw, (yaw_rate(k) * dt) as i64),
        pitch: clamp_int(o.pitch + pitch_rate(k) * dt, -PITCH_LIMIT as int, PITCH_LIMIT as int)
            as i64,
        roll: o.roll,
    }
}

/// Displacement along one axis: the net direction component (at most
/// two unit vectors worth) times the elapsed time, brought back to
/// micro-units; rounded toward zero.
pub open spec fn spec_scaled(net: int, dt: int) -> int {
    if net >= 0 {
        (net * dt) / (SCALE as int)
    } else {
        -(((-net) * dt) / (SCALE as int))
    }
}

/// Net movement direction along x, in micro-units per world unit.
pub open spec fn net_x(k: InputSnapshot, right: Vec3, forward: Vec3) -> int {
    strafe_rate(k) * (right.x as int) + move_rate(k) * (forward.x as int)
}

/// Net movement direction along z, in micro-units per world unit.
pub open spec fn net_z(k: InputSnapshot, right: Vec3, forward: Vec3) -> int {
    strafe_rate(k) * (right.z as int) + move_rate(k) * (forward.z as int)
}

/// The position after one update: x and z advance by the scaled net
/// displacement and are clamped to the bounds independently; the
/// vertical coordinate passes through untouched.
pub open spec fn spec_moved(
    p: Vec3,
    k: InputSnapshot,
    dt: int,
    right: Vec3,
    forward: Vec3,
    b: WorldBounds,
) -> Vec3 {
    Vec3 {
        x: clamp_int(
            p.x + spec_scaled(net_x(k, right, forward), dt),
            -b.half_x as int,
            b.half_x as int,
        ) as i64,
        y: p.y,
        z: clamp_int(
            p.z + spec_scaled(net_z(k, right, forward), dt),
            -b.half_z as int,
            b.half_z as int,
        ) as i64,
    }
}

impl WorldBounds {
    /// Non-negative half-extents within the accepted range.
    pub open spec fn wf(&self) -> bool {
        &&& 0 <= self.half_x <= POS_RANGE
        &&& 0 <= self.half_z <= POS_RANGE
    }

    /// The bounds established by the ground grid: half of each extent,
    /// in micro-units.
    pub fn from_grid(g: &Grid) -> (r: WorldBounds)
        requires
            g.wf(),
        ensures
            r.half_x == (g.size_x as int) * 500_000,
            r.half_z == (g.size_y as int) * 500_000,
            r.wf(),
    {
        WorldBounds { half_x: g.size_x * 500_000, half_z: g.size_y * 500_000 }
    }
}

/// A product with a sign factor, spelled out case by case.
proof fn lemma_sign_mul(s: int, v: int)
    requires
        -1 <= s <= 1,
    ensures
        s * v == (if s == 1 {
            v
        } else if s == -1 {
            -v
        } else {
            0
        }),
{
    assert(s == 1 ==> s * v == v) by (nonlinear_arith);
    assert(s == -1 ==> s * v == -v) by (nonlinear_arith);
    assert(s == 0 ==> s * v == 0) by (nonlinear_arith);
}

/// Compute one axis of the displacement: `net * dt / SCALE`, rounded
/// toward zero.
fn scaled_disp(net: i64, dt: i64) -> (r: i64)
    requires
        -2 * SCALE <= net <= 2 * SCALE,
        0 <= dt <= MAX_DT,
    ensures
        r == spec_scaled(net as int, dt as int),
        -2 * MAX_DT <= r <= 2 * MAX_DT,
{
    let neg: bool = net < 0;
    let mag: i64 = if neg {
        -net
    } else {
        net
    };
    proof {
        lemma_mul_upper_bound(mag as int, 2 * SCALE as int, dt as int, MAX_DT as int);
        lemma_mul_nonnegative(mag as int, dt as int);
    }
    let prod: u64 = (mag as u64) * (dt as u64);
    let q: u64 = prod / (SCALE as u64);
    proof {
        lemma_div_is_ordered(prod as int, 2 * (SCALE as int) * (MAX_DT as int), SCALE as int);
    }
    let qi: i64 = q as i64;
    if neg {
        -qi
    } else {
        qi
    }
}

/// Step 1 — orientation update. Yaw and pitch advance at one radian
/// per second per held key, scaled by the elapsed time; pitch is
/// clamped to the limits, roll passes through.
pub fn turned(o: &Orientation, keys: &InputSnapshot, dt: i64) -> (r: Orientation)
    requires
        0 <= dt <= MAX_DT,
        pitch_in_limits(*o),
    ensures
        r == spec_turned(*o, *keys, dt as int),
        pitch_in_limits(r),
        r.roll == o.roll,
{
    let mut d_yaw: i64 = 0;
    if keys.yaw_left {
        d_yaw = d_yaw + dt;
    }
    if keys.yaw_right {
        d_yaw = d_yaw - dt;
    }
    let mut d_pitch: i64 = 0;
    if keys.pitch_up {
        d_pitch = d_pitch + dt;
    }
    if keys.pitch_down {
        d_pitch = d_pitch - dt;
    }
    proof {
        lemma_sign_mul(yaw_rate(*keys), dt as int);
        lemma_sign_mul(pitch_rate(*keys), dt as int);
    }
    let raw_pitch: i64 = o.pitch + d_pitch;
    Orientation {
        yaw: o.yaw.wrapping_add(d_yaw),
        pitch: clamp_i64(raw_pitch, -PITCH_LIMIT, PITCH_LIMIT),
        roll: o.roll,
    }
}

/// Step 2 — translation update. The net of the four movement signals
/// moves the camera along the given right and flattened-forward
/// directions at one world unit per second; x and z are clamped to
/// the bounds, the altitude is never modified.
pub fn moved(
    p: &Vec3,
    keys: &InputSnapshot,
    dt: i64,
    right: &Vec3,
    forward: &Vec3,
    bounds: &WorldBounds,
) -> (r: Vec3)
    requires
        0 <= dt <= MAX_DT,
        vec3_in_range(*p),
        dir_in_range(*right),
        dir_in_range(*forward),
        bounds.wf(),
    ensures
        r == spec_moved(*p, *keys, dt as int, *right, *forward, *bounds),
        r.y == p.y,
        -bounds.half_x <= r.x <= bounds.half_x,
        -bounds.half_z <= r.z <= bounds.half_z,
        vec3_in_range(r),
{
    let mut nx: i64 = 0;
    let mut nz: i64 = 0;
    if keys.strafe_right {
        nx = nx + right.x;
        nz = nz + right.z;
    }
    if keys.strafe_left {
        nx = nx - right.x;
        nz = nz - right.z;
    }
    if keys.move_forward {
        nx = nx + forward.x;
        nz = nz + forward.z;
    }
    if keys.move_back {
        nx = nx - forward.x;
        nz = nz - forward.z;
    }
    proof {
        lemma_sign_mul(strafe_rate(*keys), right.x as int);
        lemma_sign_mul(strafe_rate(*keys), right.z as int);
        lemma_sign_mul(move_rate(*keys), forward.x as int);
        lemma_sign_mul(move_rate(*keys), forward.z as int);
    }
    assert(nx == net_x(*keys, *right, *forward));
    assert(nz == net_z(*keys, *right, *forward));
    let dx: i64 = scaled_disp(nx, dt);
    let dz: i64 = scaled_disp(nz, dt);
    Vec3 {
        x: clamp_i64(p.x + dx, -bounds.half_x, bounds.half_x),
        y: p.y,
        z: clamp_i64(p.z + dz, -bounds.half_z, bounds.half_z),
    }
}

impl CameraState {
    /// The controller's invariant: pitch within limits, position
    /// within the accepted coordinate range.
    pub open spec fn wf(&self) -> bool {
        &&& pitch_in_limits(self.orientation)
        &&& vec3_in_range(self.position)
    }

    /// Make a camera state; the pitch is clamped into the limits so
    /// the invariant holds from the start.
    pub fn new(position: Vec3, yaw: i64, pitch: i64, roll: i64) -> (r: CameraState)
        requires
            vec3_in_range(position),
        ensures
            r.position == position,
            r.orientation.yaw == yaw,
            r.orientation.pitch == clamp_int(pitch as int, -PITCH_LIMIT as int, PITCH_LIMIT as int),
            r.orientation.roll == roll,
            r.wf(),
    {
        CameraState {
            orientation: Orientation {
                yaw,
                pitch: clamp_i64(pitch, -PITCH_LIMIT, PITCH_LIMIT),
                roll,
            },
            position,
        }
    }

    /// One frame of the camera controller: orientation then position,
    /// written back together so no reader sees a torn update.
    pub fn update(
        &mut self,
        keys: &InputSnapshot,
        dt: i64,
        right: &Vec3,
        forward: &Vec3,
        bounds: &WorldBounds,
    )
        requires
            0 <= dt <= MAX_DT,
            old(self).wf(),
            dir_in_range(*right),
            dir_in_range(*forward),
            bounds.wf(),
        ensures
            final(self).orientation == spec_turned(old(self).orientation, *keys, dt as int),
            final(self).position == spec_moved(
                old(self).position,
                *keys,
                dt as int,
                *right,
                *forward,
                *bounds,
            ),
            final(self).position.y == old(self).position.y,
            final(self).wf(),
    {
        let o = turned(&self.orientation, keys, dt);
        let p = moved(&self.position, keys, dt, right, forward, bounds);
        self.orientation = o;
        self.position = p;
    }
}

/// The orientation after `n` updates with the same key state and the
/// same time delta.
pub open spec fn turned_n(o: Orientation, k: InputSnapshot, dt: int, n: nat) -> Orientation
    decreases n,
{
    if n == 0 {
        o
    } else {
        spec_turned(turned_n(o, k, dt, (n - 1) as nat), k, dt)
    }
}

/// The position after `n` updates with the same key state, time
/// delta, directions and bounds.
pub open spec fn moved_n(
    p: Vec3,
    k: InputSnapshot,
    dt: int,
    right: Vec3,
    forward: Vec3,
    b: WorldBounds,
    n: nat,
) -> Vec3
    decreases n,
{
    if n == 0 {
        p
    } else {
        spec_moved(moved_n(p, k, dt, right, forward, b, (n - 1) as nat), k, dt, right, forward, b)
    }
}

/// Law (pitch clamp): starting within the limits, any number of
/// updates — whatever keys are held — leaves the pitch within
/// `[-PITCH_LIMIT, PITCH_LIMIT]`.
pub proof fn lemma_pitch_stays_in_limits(o: Orientation, k: InputSnapshot, dt: int, n: nat)
    requires
        pitch_in_limits(o),
    ensures
        pitch_in_limits(turned_n(o, k, dt, n)),
    decreases n,
{
    if n > 0 {
        lemma_pitch_stays_in_limits(o, k, dt, (n - 1) as nat);
    }
}

/// Chaining two wrapping additions of like sign equals one wrapping
/// addition of the sum.
proof fn lemma_wrap_add_chain(y: i64, a: i64, b: i64)
    requires
        (0 <= a && 0 <= b) || (a <= 0 && b <= 0),
        i64::MIN <= a + b <= i64::MAX,
    ensures
        i64_specs::wrapping_add(i64_specs::wrapping_add(y, a), b) == i64_specs::wrapping_add(
            y,
            (a + b) as i64,
        ),
{
}

/// Chaining two clamped additions of like sign equals one clamped
/// addition of the sum, for a start value already within the range.
proof fn lemma_clamp_chain(p: int, a: int, b: int, lo: int, hi: int)
    requires
        lo <= p <= hi,
        (0 <= a && 0 <= b) || (a <= 0 && b <= 0),
    ensures
        clamp_int(clamp_int(p + a, lo, hi) + b, lo, hi) == clamp_int(p + a + b, lo, hi),
{
}

/// Law (frame-rate independence, one split): updating the orientation
/// with delta `a` and then `b` gives the same orientation as one
/// update with `a + b`, for a constant key state.
pub proof fn lemma_turn_additive(o: Orientation, k: InputSnapshot, a: int, b: int)
    requires
        pitch_in_limits(o),
        0 <= a,
        0 <= b,
        a + b <= MAX_DT,
    ensures
        spec_turned(spec_turned(o, k, a), k, b) == spec_turned(o, k, a + b),
{
    let ry = yaw_rate(k);
    let rp = pitch_rate(k);
    lemma_mul_is_distributive_add(ry, a, b);
    lemma_mul_is_distributive_add(rp, a, b);
    lemma_sign_mul(ry, a);
    lemma_sign_mul(ry, b);
    lemma_sign_mul(ry, a + b);
    lemma_sign_mul(rp, a);
    lemma_sign_mul(rp, b);
    lemma_sign_mul(rp, a + b);
    lemma_wrap_add_chain(o.yaw, (ry * a) as i64, (ry * b) as i64);
    lemma_clamp_chain(o.pitch as int, rp * a, rp * b, -PITCH_LIMIT as int, PITCH_LIMIT as int);
}

/// Law (frame-rate independence): `n` orientation updates of `dt`
/// each equal one update of `n * dt`, for a constant key state.
pub proof fn lemma_turn_frame_rate_independent(o: Orientation, k: InputSnapshot, dt: int, n: nat)
    requires
        pitch_in_limits(o),
        0 <= dt,
        n * dt <= MAX_DT,
    ensures
        turned_n(o, k, dt, n) == spec_turned(o, k, n * dt),
    decreases n,
{
    if n == 0 {
        assert(n * dt == 0) by (nonlinear_arith)
            requires
                n == 0,
        ;
        lemma_sign_mul(yaw_rate(k), 0);
        lemma_sign_mul(pitch_rate(k), 0);
        assert(spec_turned(o, k, 0) == o);
    } else {
        let m = (n - 1) as nat;
        lemma_mul_nonnegative(m as int, dt);
        lemma_mul_inequality(m as int, n as int, dt);
        assert(m * dt + dt == n * dt) by (nonlinear_arith)
            requires
                m == n - 1,
        ;
        lemma_turn_frame_rate_independent(o, k, dt, m);
        assert(turned_n(o, k, dt, n) == spec_turned(turned_n(o, k, dt, m), k, dt));
        lemma_turn_additive(o, k, m * dt, dt);
        assert(spec_turned(spec_turned(o, k, m * dt), k, dt) == spec_turned(o, k, m * dt + dt));
    }
}

/// One coordinate after `n` steps of adding `d` and clamping to
/// `[lo, hi]`.
pub open spec fn clamped_steps(x: int, d: int, lo: int, hi: int, n: nat) -> int
    decreases n,
{
    if n == 0 {
        x
    } else {
        clamp_int(clamped_steps(x, d, lo, hi, (n - 1) as nat) + d, lo, hi)
    }
}

/// Each coordinate of the repeated position update evolves as a
/// clamped scalar iteration; the altitude never changes.
proof fn lemma_moved_n_components(
    p: Vec3,
    k: InputSnapshot,
    dt: int,
    right: Vec3,
    forward: Vec3,
    b: WorldBounds,
    n: nat,
)
    requires
        b.wf(),
    ensures
        moved_n(p, k, dt, right, forward, b, n).x == clamped_steps(
            p.x as int,
            spec_scaled(net_x(k, right, forward), dt),
            -b.half_x as int,
            b.half_x as int,
            n,
        ),
        moved_n(p, k, dt, right, forward, b, n).z == clamped_steps(
            p.z as int,
            spec_scaled(net_z(k, right, forward), dt),
            -b.half_z as int,
            b.half_z as int,
            n,
        ),
        moved_n(p, k, dt, right, forward, b, n).y == p.y,
    decreases n,
{
    if n > 0 {
        lemma_moved_n_components(p, k, dt, right, forward, b, (n - 1) as nat);
    }
}

/// The clamped scalar iteration in closed form: it advances linearly
/// until it meets the bound on the side it moves toward, then stays
/// exactly there.
proof fn lemma_clamped_steps_converge(x: int, d: int, lo: int, hi: int, n: nat)
    requires
        lo <= x <= hi,
    ensures
        d >= 0 ==> clamped_steps(x, d, lo, hi, n) == (if x + n * d >= hi {
            hi
        } else {
            x + n * d
        }),
        d <= 0 ==> clamped_steps(x, d, lo, hi, n) == (if x + n * d <= lo {
            lo
        } else {
            x + n * d
        }),
    decreases n,
{
    if n == 0 {
        assert(n * d == 0) by (nonlinear_arith)
            requires
                n == 0,
        ;
    } else {
        let m = (n - 1) as nat;
        lemma_clamped_steps_converge(x, d, lo, hi, m);
        let prev = clamped_steps(x, d, lo, hi, m);
        assert(clamped_steps(x, d, lo, hi, n) == clamp_int(prev + d, lo, hi));
        assert(m * d + d == n * d) by (nonlinear_arith)
            requires
                m == n - 1,
        ;
        assert(d >= 0 ==> m * d >= 0 && m * d <= n * d) by (nonlinear_arith)
            requires
                0 <= m <= n,
        ;
        assert(d <= 0 ==> m * d <= 0 && m * d >= n * d) by (nonlinear_arith)
            requires
                0 <= m <= n,
        ;
    }
}

/// Law (position clamp): starting within the bounds and holding the
/// same keys, the camera's horizontal coordinates never leave the
/// bounds, and once the accumulated displacement would pass a bound
/// the coordinate sits exactly on that bound. The altitude never
/// changes.
pub proof fn lemma_position_converges(
    p: Vec3,
    k: InputSnapshot,
    dt: int,
    right: Vec3,
    forward: Vec3,
    b: WorldBounds,
    n: nat,
)
    requires
        b.wf(),
        -b.half_x <= p.x <= b.half_x,
        -b.half_z <= p.z <= b.half_z,
    ensures
        -b.half_x <= moved_n(p, k, dt, right, forward, b, n).x <= b.half_x,
        -b.half_z <= moved_n(p, k, dt, right, forward, b, n).z <= b.half_z,
        spec_scaled(net_x(k, right, forward), dt) >= 0 && p.x + n * spec_scaled(
            net_x(k, right, forward),
            dt,
        ) >= b.half_x ==> moved_n(p, k, dt, right, forward, b, n).x == b.half_x,
        spec_scaled(net_x(k, right, forward), dt) <= 0 && p.x + n * spec_scaled(
            net_x(k, right, forward),
            dt,
        ) <= -b.half_x ==> moved_n(p, k, dt, right, forward, b, n).x == -b.half_x,
        spec_scaled(net_z(k, right, forward), dt) >= 0 && p.z + n * spec_scaled(
            net_z(k, right, forward),
            dt,
        ) >= b.half_z ==> moved_n(p, k, dt, right, forward, b, n).z == b.half_z,
        spec_scaled(net_z(k, right, forward), dt) <= 0 && p.z + n * spec_scaled(
            net_z(k, right, forward),
            dt,
        ) <= -b.half_z ==> moved_n(p, k, dt, right, forward, b, n).z == -b.half_z,
        moved_n(p, k, dt, right, forward, b, n).y == p.y,
{
    let dx = spec_scaled(net_x(k, right, forward), dt);
    let dz = spec_scaled(net_z(k, right, forward), dt);
    lemma_moved_n_components(p, k, dt, right, forward, b, n);
    lemma_clamped_steps_converge(p.x as int, dx, -b.half_x as int, b.half_x as int, n);
    lemma_clamped_steps_converge(p.z as int, dz, -b.half_z as int, b.half_z as int, n);
    assert(dx >= 0 ==> n * dx >= 0) by (nonlinear_arith);
    assert(dx <= 0 ==> n * dx <= 0) by (nonlinear_arith);
    assert(dz >= 0 ==> n * dz >= 0) by (nonlinear_arith);
    assert(dz <= 0 ==> n * dz <= 0) by (nonlinear_arith);
}

} // verus!
