//! The grid layout generator: given world extents and line spacings,
//! it deterministically produces the placements of the ground-plane
//! grid lines.
//!
//! The generator works in whole world units: extents and spacings are
//! integers, and every line offset is an integer. Each generated line
//! carries the one fixed plane-aligning rotation (a negative quarter
//! turn about the X axis); the rendering adapter supplies the actual
//! rotation value, so `LineSpec` does not repeat it.

use vstd::prelude::*;
use vstd::arithmetic::div_mod::lemma_fundamental_div_mod;
use vstd::arithmetic::div_mod::lemma_fundamental_div_mod_converse_div;
use vstd::arithmetic::mul::lemma_mul_inequality;
use vstd::arithmetic::mul::lemma_mul_is_distributive_sub;
use vstd::arithmetic::mul::lemma_mul_nonnegative;

verus! {

/// Largest accepted grid extent and line spacing, in whole world
/// units (a machine limit keeping all placement arithmetic in `i64`).
pub const MAX_GRID_SIZE: i64 = 1_000_000_000_000;

/// Which family a grid line belongs to: lines of the `X` family step
/// along the X axis and lie along Z; lines of the `Z` family step
/// along the Z axis and lie along X.
#[derive(Clone, Copy, PartialEq, Eq, Structural, Debug)]
pub enum Axis {
    X,
    Z,
}

/// The placement of one grid line: its family, its position in whole
/// world units, and its length in whole world units.
#[derive(Clone, Copy, PartialEq, Eq, Structural, Debug)]
pub struct LineSpec {
    pub axis: Axis,
    pub x: i64,
    pub y: i64,
    pub z: i64,
    pub length: i64,
}

/// Why a grid configuration was rejected.
#[derive(Clone, Copy, PartialEq, Eq, Structural, Debug)]
pub enum GridError {
    /// A line spacing was not a positive integer within range.
    IntervalOutOfRange,
    /// An extent was negative or beyond the accepted range.
    SizeOutOfRange,
}

/// The world bounds and line spacings of the ground grid, in whole
/// world units. Immutable once created; `Grid::new` validates a
/// configuration.
#[derive(Clone, Copy, PartialEq, Eq, Structural, Debug)]
pub struct Grid {
    pub size_x: i64,
    pub size_y: i64,
    pub interval_x: i64,
    pub interval_y: i64,
}

/// The line of family `axis` at the given offset: a line of the `X`
/// family sits at `(offset, 0, 0)`, one of the `Z` family at
/// `(0, 0, offset)`.
pub open spec fn line_at(axis: Axis, offset: int, length: int) -> LineSpec {
    match axis {
        Axis::X => LineSpec { axis, x: offset as i64, y: 0, z: 0, length: length as i64 },
        Axis::Z => LineSpec { axis, x: 0, y: 0, z: offset as i64, length: length as i64 },
    }
}

/// How many lines one family holds: offsets run from `-half` to
/// `half` inclusive, stepping by `step`.
pub open spec fn offset_count(half: int, step: int) -> int {
    (2 * half) / step + 1
}

/// The offsets of one family, in ascending order.
pub open spec fn family_offsets(half: int, step: int) -> Seq<int> {
    Seq::new(offset_count(half, step) as nat, |k: int| -half + k * step)
}

/// The placements of one whole family of lines.
pub open spec fn family_lines(axis: Axis, half: int, step: int, length: int) -> Seq<LineSpec> {
    family_offsets(half, step).map_values(|o: int| line_at(axis, o, length))
}

impl Grid {
    /// A valid configuration: extents non-negative, spacings positive,
    /// both within the accepted range.
    pub open spec fn wf(&self) -> bool {
        &&& 0 <= self.size_x <= MAX_GRID_SIZE
        &&& 0 <= self.size_y <= MAX_GRID_SIZE
        &&& 0 < self.interval_x <= MAX_GRID_SIZE
        &&& 0 < self.interval_y <= MAX_GRID_SIZE
    }

    /// Half the X extent, rounded toward zero.
    pub open spec fn half_x(&self) -> int {
        (self.size_x as int) / 2
    }

    /// Half the Y (depth) extent, rounded toward zero.
    pub open spec fn half_y(&self) -> int {
        (self.size_y as int) / 2
    }

    /// How many lines the `X` family holds.
    pub open spec fn x_count(&self) -> int {
        offset_count(self.half_x(), self.interval_x as int)
    }

    /// How many lines the `Z` family holds.
    pub open spec fn z_count(&self) -> int {
        offset_count(self.half_y(), self.interval_y as int)
    }

    /// All generated lines: the `X` family, then the `Z` family. A
    /// line of the `X` family lies along Z, so it is as long as the
    /// depth extent plus one; symmetrically for the `Z` family.
    pub open spec fn lines_spec(&self) -> Seq<LineSpec> {
        family_lines(Axis::X, self.half_x(), self.interval_x as int, self.size_y + 1)
            + family_lines(Axis::Z, self.half_y(), self.interval_y as int, self.size_x + 1)
    }

    /// Validate a grid configuration: spacings must be positive
    /// integers, extents non-negative, all within the accepted range.
    pub fn new(size_x: i64, size_y: i64, interval_x: i64, interval_y: i64) -> (r: Result<
        Grid,
        GridError,
    >)
        ensures
            r == (if !(0 < interval_x <= MAX_GRID_SIZE) || !(0 < interval_y <= MAX_GRID_SIZE) {
                Err::<Grid, GridError>(GridError::IntervalOutOfRange)
            } else if !(0 <= size_x <= MAX_GRID_SIZE) || !(0 <= size_y <= MAX_GRID_SIZE) {
                Err::<Grid, GridError>(GridError::SizeOutOfRange)
            } else {
                Ok::<Grid, GridError>((Grid { size_x, size_y, interval_x, interval_y }))
            }),
            r is Ok ==> r->Ok_0.wf(),
    {
        if interval_x <= 0 || interval_x > MAX_GRID_SIZE || interval_y <= 0 || interval_y
            > MAX_GRID_SIZE {
            Err(GridError::IntervalOutOfRange)
        } else if size_x < 0 || size_x > MAX_GRID_SIZE || size_y < 0 || size_y > MAX_GRID_SIZE {
            Err(GridError::SizeOutOfRange)
        } else {
            Ok(Grid { size_x, size_y, interval_x, interval_y })
        }
    }

    /// Generate the grid-line placements for this configuration.
    ///
    /// The result is pinned exactly by `lines_spec`, a function of the
    /// configuration alone, so repeated calls with equal configurations
    /// yield equal sequences.
    pub fn lines(&self) -> (r: Vec<LineSpec>)
        requires
            self.wf(),
        ensures
            r@ == self.lines_spec(),
    {
        let half_x: i64 = ((self.size_x as u64) / 2) as i64;
        let half_y: i64 = ((self.size_y as u64) / 2) as i64;
        assert(half_x == self.half_x() && half_y == self.half_y());
        let mut r = build_family(Axis::X, half_x, self.interval_x, self.size_y + 1);
        let mut z_part = build_family(Axis::Z, half_y, self.interval_y, self.size_x + 1);
        r.append(&mut z_part);
        r
    }
}

/// Build one family of lines: offsets from `-half` to `half`
/// inclusive, stepping by `step`.
fn build_family(axis: Axis, half: i64, step: i64, length: i64) -> (r: Vec<LineSpec>)
    requires
        0 <= half <= MAX_GRID_SIZE,
        0 < step <= MAX_GRID_SIZE,
        0 <= length,
    ensures
        r@ == family_lines(axis, half as int, step as int, length as int),
{
    let mut r: Vec<LineSpec> = Vec::new();
    let mut i: i64 = -half;
    while i <= half
        invariant
            0 <= half <= MAX_GRID_SIZE,
            0 < step <= MAX_GRID_SIZE,
            0 <= length,
            -half <= i <= half + step,
            i == -half + r@.len() * step,
            forall|j: int|
                0 <= j < r@.len() ==> r@[j] == line_at(axis, -half + j * (step as int), length as int),
        decreases half + step - i,
    {
        let line = match axis {
            Axis::X => LineSpec { axis: Axis::X, x: i, y: 0, z: 0, length },
            Axis::Z => LineSpec { axis: Axis::Z, x: 0, y: 0, z: i, length },
        };
        r.push(line);
        proof {
            assert((r@.len() as int) * step == (r@.len() - 1) * step + step) by (nonlinear_arith);
        }
        i = i + step;
    }
    proof {
        let n = r@.len() as int;
        let h2 = 2 * (half as int);
        let st = step as int;
        assert(n >= 1) by {
            if n == 0 {
                assert(i == -half + 0 * st);
                assert(i <= half);
            }
        }
        assert(n * st == (n - 1) * st + st) by (nonlinear_arith);
        assert((n - 1) * st <= h2 < n * st);
        lemma_fundamental_div_mod_converse_div(h2, st, n - 1, h2 - (n - 1) * st);
        assert(n == offset_count(half as int, st));
        assert(r@ =~= family_lines(axis, half as int, st, length as int));
    }
    r
}

/// Law: every offset of a family lies within the extent, between
/// `-half` and `half` inclusive.
pub proof fn lemma_family_offsets_bounded(half: int, step: int, k: int)
    requires
        0 <= half,
        0 < step,
        0 <= k < family_offsets(half, step).len(),
    ensures
        -half <= family_offsets(half, step)[k] <= half,
{
    let q = (2 * half) / step;
    lemma_mul_nonnegative(k, step);
    lemma_mul_inequality(k, q, step);
    lemma_fundamental_div_mod(2 * half, step);
    assert(q * step <= 2 * half);
}

/// Law (grid symmetry): when the stride divides the span exactly, the
/// offsets of a family are symmetric about zero — the offset mirrored
/// in the list order is the negation.
pub proof fn lemma_family_offsets_symmetric(half: int, step: int, k: int)
    requires
        0 <= half,
        0 < step,
        (2 * half) % step == 0,
        0 <= k < family_offsets(half, step).len(),
    ensures
        family_offsets(half, step)[family_offsets(half, step).len() - 1 - k] == -family_offsets(
            half,
            step,
        )[k],
{
    let n = offset_count(half, step);
    lemma_fundamental_div_mod(2 * half, step);
    assert((n - 1) * step == step * (n - 1)) by (nonlinear_arith);
    assert((n - 1) * step == 2 * half);
    lemma_mul_is_distributive_sub(step, n - 1, k);
    assert((n - 1 - k) * step == (n - 1) * step - k * step);
}

/// Law (grid symmetry): in the generated sequence, every line of the
/// `X` family has the length of the depth extent plus one and an
/// offset within the extent, and — when the stride divides the span —
/// the mirrored line's offset is the negation; and likewise for the
/// `Z` family.
pub proof fn lemma_grid_symmetry(g: Grid, k: int)
    requires
        g.wf(),
    ensures
        0 <= k < g.x_count() ==> {
            let line = g.lines_spec()[k];
            &&& line.axis == Axis::X
            &&& line.length == g.size_y + 1
            &&& line.y == 0 && line.z == 0
            &&& -g.half_x() <= line.x <= g.half_x()
            &&& (2 * g.half_x()) % (g.interval_x as int) == 0 ==> g.lines_spec()[g.x_count() - 1
                - k].x == -line.x
        },
        0 <= k < g.z_count() ==> {
            let line = g.lines_spec()[g.x_count() + k];
            &&& line.axis == Axis::Z
            &&& line.length == g.size_x + 1
            &&& line.x == 0 && line.y == 0
            &&& -g.half_y() <= line.z <= g.half_y()
            &&& (2 * g.half_y()) % (g.interval_y as int) == 0 ==> g.lines_spec()[g.x_count()
                + g.z_count() - 1 - k].z == -line.z
        },
{
    if 0 <= k < g.x_count() {
        lemma_family_offsets_bounded(g.half_x(), g.interval_x as int, k);
        if (2 * g.half_x()) % (g.interval_x as int) == 0 {
            lemma_family_offsets_symmetric(g.half_x(), g.interval_x as int, k);
        }
    }
    if 0 <= k < g.z_count() {
        lemma_family_offsets_bounded(g.half_y(), g.interval_y as int, k);
        if (2 * g.half_y()) % (g.interval_y as int) == 0 {
            lemma_family_offsets_symmetric(g.half_y(), g.interval_y as int, k);
        }
    }
}

} // verus!
