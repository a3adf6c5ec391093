//! Fixed-point geometry: three-component vectors over `i64` coordinates.
//!
//! One world unit is [`FIX_ONE`] ticks, so a quantity like "0.05 units of
//! recoil" is the exact integer 50. All operations state their results
//! exactly over mathematical integers; callers keep coordinates within
//! [`COORD_LIMIT`] so that squares and scaled sums never overflow.

use vstd::arithmetic::div_mod::{
    lemma_div_by_multiple, lemma_div_is_ordered, lemma_div_nonincreasing, lemma_div_pos_is_pos,
};
use vstd::prelude::*;

verus! {

/// Number of fixed-point ticks in one world unit.
pub const FIX_ONE: i64 = 1000;

/// Largest coordinate magnitude the library works with: one million world
/// units. Keeps `x*x + y*y + z*z` and `x * FIX_ONE` inside `i64`.
pub const COORD_LIMIT: i64 = 1_000_000_000;

/// A point or direction in world space, in fixed-point ticks.
#[derive(Clone, Copy, PartialEq, Eq, Structural, Hash, Debug)]
pub struct Vec3 {
    pub x: i64,
    pub y: i64,
    pub z: i64,
}

/// Truncating signed division (rounds toward zero), defined for a positive
/// divisor. Matches dividing magnitudes and reapplying the sign.
pub open spec fn spec_div_trunc(x: int, d: int) -> int {
    if x >= 0 {
        x / d
    } else {
        -((-x) / d)
    }
}

/// `r` is the floor of the square root of `n`.
pub open spec fn is_sqrt_floor(n: int, r: int) -> bool {
    0 <= r && r * r <= n && n < (r + 1) * (r + 1)
}

/// The floor of the square root of `n`; well defined for `n >= 0` by
/// `lemma_sqrt_floor_exists` and `lemma_sqrt_floor_unique`.
pub open spec fn sqrt_floor(n: int) -> int {
    choose|r: int| is_sqrt_floor(n, r)
}

/// A nonnegative number has a square-root floor, so `sqrt_floor` denotes it.
pub proof fn lemma_sqrt_floor_exists(n: int)
    requires
        n >= 0,
    ensures
        is_sqrt_floor(n, sqrt_floor(n)),
    decreases n,
{
    if n == 0 {
        assert(is_sqrt_floor(0, 0));
    } else {
        lemma_sqrt_floor_exists(n - 1);
        let r = sqrt_floor(n - 1);
        if (r + 1) * (r + 1) <= n {
            assert(n - 1 < (r + 1) * (r + 1));
            assert(n < (r + 2) * (r + 2)) by (nonlinear_arith)
                requires
                    n <= (r + 1) * (r + 1),
                    r >= 0,
            ;
            assert(is_sqrt_floor(n, r + 1));
        } else {
            assert(is_sqrt_floor(n, r));
        }
    }
    assert(exists|m: int| is_sqrt_floor(n, m));
}

/// Two square-root floors of the same number are equal.
pub proof fn lemma_sqrt_floor_unique(n: int, a: int, b: int)
    requires
        is_sqrt_floor(n, a),
        is_sqrt_floor(n, b),
    ensures
        a == b,
{
    if a < b {
        assert((a + 1) * (a + 1) <= b * b) by (nonlinear_arith)
            requires
                0 <= a + 1 <= b,
        ;
    }
    if b < a {
        assert((b + 1) * (b + 1) <= a * a) by (nonlinear_arith)
            requires
                0 <= b + 1 <= a,
        ;
    }
}

/// Truncating division bounds: the quotient keeps the sign of `x` and never
/// grows in magnitude.
pub proof fn lemma_div_trunc_bounds(x: int, d: int)
    requires
        d >= 1,
    ensures
        x >= 0 ==> 0 <= spec_div_trunc(x, d) <= x,
        x < 0 ==> x <= spec_div_trunc(x, d) <= 0,
{
    if x >= 0 {
        lemma_div_pos_is_pos(x, d);
        lemma_div_nonincreasing(x, d);
    } else {
        lemma_div_pos_is_pos(-x, d);
        lemma_div_nonincreasing(-x, d);
    }
}

/// Truncating signed division by a positive divisor.
pub fn div_trunc(x: i64, d: i64) -> (r: i64)
    requires
        1 <= d,
        -i64::MAX <= x,
    ensures
        r == spec_div_trunc(x as int, d as int),
        x >= 0 ==> 0 <= r <= x,
        x < 0 ==> x <= r <= 0,
{
    proof {
        lemma_div_trunc_bounds(x as int, d as int);
    }
    if x >= 0 {
        let q: u64 = (x as u64) / (d as u64);
        q as i64
    } else {
        let nx: i64 = -x;
        let q: u64 = (nx as u64) / (d as u64);
        -(q as i64)
    }
}

/// Floor of the square root of `n`.
pub fn isqrt(n: u64) -> (r: u64)
    ensures
        is_sqrt_floor(n as int, r as int),
        r < 0x1_0000_0000,
{
    let mut lo: u64 = 0;
    let mut hi: u64 = 0x1_0000_0000;
    proof {
        assert((0x1_0000_0000 as int) * (0x1_0000_0000 as int) > n as int);
    }
    while hi - lo > 1
        invariant
            lo < hi <= 0x1_0000_0000,
            (lo as int) * (lo as int) <= n as int,
            (hi as int) * (hi as int) > n as int,
        decreases hi - lo,
    {
        let mid: u64 = lo + (hi - lo) / 2;
        proof {
            assert((mid as int) * (mid as int) < 0x1_0000_0000_0000_0000) by (nonlinear_arith)
                requires
                    mid < 0x1_0000_0000,
            ;
        }
        if mid * mid <= n {
            lo = mid;
        } else {
            hi = mid;
        }
    }
    lo
}

impl Vec3 {
    /// Coordinates small enough for all arithmetic in this crate.
    pub open spec fn in_range(self) -> bool {
        &&& -COORD_LIMIT <= self.x <= COORD_LIMIT
        &&& -COORD_LIMIT <= self.y <= COORD_LIMIT
        &&& -COORD_LIMIT <= self.z <= COORD_LIMIT
    }

    pub open spec fn spec_zero() -> Vec3 {
        Vec3 { x: 0, y: 0, z: 0 }
    }

    /// The canonical forward axis, one unit long.
    pub open spec fn spec_z_axis() -> Vec3 {
        Vec3 { x: 0, y: 0, z: FIX_ONE }
    }

    pub open spec fn spec_add(a: Vec3, b: Vec3) -> Vec3 {
        Vec3 { x: (a.x + b.x) as i64, y: (a.y + b.y) as i64, z: (a.z + b.z) as i64 }
    }

    pub open spec fn spec_sub(a: Vec3, b: Vec3) -> Vec3 {
        Vec3 { x: (a.x - b.x) as i64, y: (a.y - b.y) as i64, z: (a.z - b.z) as i64 }
    }

    pub open spec fn spec_scale(a: Vec3, k: int) -> Vec3 {
        Vec3 { x: (a.x * k) as i64, y: (a.y * k) as i64, z: (a.z * k) as i64 }
    }

    /// One damping step of a first-order low-pass: each coordinate moves one
    /// fifth of the way toward the target, rounding toward zero.
    pub open spec fn spec_follow(v: Vec3, target: Vec3) -> Vec3 {
        Vec3 {
            x: (v.x + spec_div_trunc(target.x - v.x, 5)) as i64,
            y: (v.y + spec_div_trunc(target.y - v.y, 5)) as i64,
            z: (v.z + spec_div_trunc(target.z - v.z, 5)) as i64,
        }
    }

    /// Squared length.
    pub open spec fn spec_norm2(self) -> int {
        self.x * self.x + self.y * self.y + self.z * self.z
    }

    /// `self` rescaled so that a length of `m` ticks becomes `FIX_ONE` ticks,
    /// each coordinate rounded toward zero.
    pub open spec fn spec_unit(self, m: int) -> Vec3 {
        Vec3 {
            x: spec_div_trunc(self.x * FIX_ONE, m) as i64,
            y: spec_div_trunc(self.y * FIX_ONE, m) as i64,
            z: spec_div_trunc(self.z * FIX_ONE, m) as i64,
        }
    }

    /// The direction a shot is given: `self` scaled to unit length, or the
    /// canonical forward axis when `self` is the zero vector.
    pub open spec fn spec_normalize_or_z(self) -> Vec3 {
        if self == Vec3::spec_zero() {
            Vec3::spec_z_axis()
        } else {
            self.spec_unit(sqrt_floor(self.spec_norm2()))
        }
    }

    pub fn new(x: i64, y: i64, z: i64) -> (v: Vec3)
        ensures
            v == (Vec3 { x, y, z }),
    {
        Vec3 { x, y, z }
    }

    pub fn zero() -> (v: Vec3)
        ensures
            v == Vec3::spec_zero(),
    {
        Vec3 { x: 0, y: 0, z: 0 }
    }

    pub fn z_axis() -> (v: Vec3)
        ensures
            v == Vec3::spec_z_axis(),
    {
        Vec3 { x: 0, y: 0, z: FIX_ONE }
    }

    pub fn is_zero(&self) -> (r: bool)
        ensures
            r == (*self == Vec3::spec_zero()),
    {
        self.x == 0 && self.y == 0 && self.z == 0
    }

    pub fn add(&self, other: &Vec3) -> (r: Vec3)
        requires
            i64::MIN <= self.x + other.x <= i64::MAX,
            i64::MIN <= self.y + other.y <= i64::MAX,
            i64::MIN <= self.z + other.z <= i64::MAX,
        ensures
            r == Vec3::spec_add(*self, *other),
    {
        Vec3 { x: self.x + other.x, y: self.y + other.y, z: self.z + other.z }
    }

    pub fn sub(&self, other: &Vec3) -> (r: Vec3)
        requires
            i64::MIN <= self.x - other.x <= i64::MAX,
            i64::MIN <= self.y - other.y <= i64::MAX,
            i64::MIN <= self.z - other.z <= i64::MAX,
        ensures
            r == Vec3::spec_sub(*self, *other),
    {
        Vec3 { x: self.x - other.x, y: self.y - other.y, z: self.z - other.z }
    }

    pub fn scale(&self, k: i64) -> (r: Vec3)
        requires
            i64::MIN <= self.x * k <= i64::MAX,
            i64::MIN <= self.y * k <= i64::MAX,
            i64::MIN <= self.z * k <= i64::MAX,
        ensures
            r == Vec3::spec_scale(*self, k as int),
    {
        Vec3 { x: self.x * k, y: self.y * k, z: self.z * k }
    }

    /// Scales `self` to unit length (length `FIX_ONE`), or returns the
    /// canonical forward axis when `self` is degenerate, so a shot direction
    /// is never the zero vector.
    pub fn normalize_or_z(&self) -> (r: Vec3)
        requires
            self.in_range(),
        ensures
            r == self.spec_normalize_or_z(),
            r != Vec3::spec_zero(),
            r.in_range(),
    {
        if self.is_zero() {
            return Vec3::z_axis();
        }
        proof {
            assert(self.x * self.x >= 0 && self.x * self.x <= 1_000_000_000_000_000_000)
                by (nonlinear_arith)
                requires
                    -1_000_000_000 <= self.x <= 1_000_000_000,
            ;
            assert(self.y * self.y >= 0 && self.y * self.y <= 1_000_000_000_000_000_000)
                by (nonlinear_arith)
                requires
                    -1_000_000_000 <= self.y <= 1_000_000_000,
            ;
            assert(self.z * self.z >= 0 && self.z * self.z <= 1_000_000_000_000_000_000)
                by (nonlinear_arith)
                requires
                    -1_000_000_000 <= self.z <= 1_000_000_000,
            ;
            assert(self.x * self.x + self.y * self.y + self.z * self.z >= 1) by (nonlinear_arith)
                requires
                    !(self.x == 0 && self.y == 0 && self.z == 0),
                    self.x * self.x >= 0,
                    self.y * self.y >= 0,
                    self.z * self.z >= 0,
            ;
        }
        let n2: i64 = self.x * self.x + self.y * self.y + self.z * self.z;
        let m: u64 = isqrt(n2 as u64);
        proof {
            lemma_sqrt_floor_exists(n2 as int);
            lemma_sqrt_floor_unique(n2 as int, m as int, sqrt_floor(n2 as int));
            assert(m >= 1) by (nonlinear_arith)
                requires
                    (m as int) * (m as int) <= n2 as int,
                    (n2 as int) < ((m as int) + 1) * ((m as int) + 1),
                    n2 >= 1,
            ;
            Self::lemma_coord_le_root(self.x as int, self.y as int, self.z as int, m as int,
                n2 as int);
            Self::lemma_coord_le_root(self.y as int, self.x as int, self.z as int, m as int,
                n2 as int);
            Self::lemma_coord_le_root(self.z as int, self.x as int, self.y as int, m as int,
                n2 as int);
        }
        let rx = div_trunc(self.x * FIX_ONE, m as i64);
        let ry = div_trunc(self.y * FIX_ONE, m as i64);
        let rz = div_trunc(self.z * FIX_ONE, m as i64);
        let r = Vec3 { x: rx, y: ry, z: rz };
        proof {
            Self::lemma_scaled_div_at_most_one(self.x as int, m as int);
            Self::lemma_scaled_div_at_most_one(self.y as int, m as int);
            Self::lemma_scaled_div_at_most_one(self.z as int, m as int);
            Self::lemma_unit_nonzero(*self, m as int, n2 as int);
        }
        r
    }

    /// A coordinate's magnitude never exceeds the root of the squared norm.
    proof fn lemma_coord_le_root(c: int, o1: int, o2: int, m: int, n2: int)
        requires
            n2 == c * c + o1 * o1 + o2 * o2,
            n2 < (m + 1) * (m + 1),
            m >= 0,
        ensures
            -m <= c <= m,
    {
        assert(-m <= c <= m) by (nonlinear_arith)
            requires
                c * c + o1 * o1 + o2 * o2 < (m + 1) * (m + 1),
                m >= 0,
        ;
    }

    /// `|c| <= m` gives `|c * FIX_ONE / m| <= FIX_ONE` (rounding toward zero).
    proof fn lemma_scaled_div_at_most_one(c: int, m: int)
        requires
            m >= 1,
            -m <= c <= m,
        ensures
            -FIX_ONE <= spec_div_trunc(c * FIX_ONE, m) <= FIX_ONE,
    {
        let f = FIX_ONE as int;
        if c >= 0 {
            assert(0 <= c * f <= f * m) by (nonlinear_arith)
                requires
                    0 <= c <= m,
                    f == 1000,
            ;
            lemma_div_is_ordered(c * f, f * m, m);
            lemma_div_by_multiple(f, m);
            lemma_div_pos_is_pos(c * f, m);
        } else {
            assert(0 <= (-c) * f <= f * m && (-c) * f == -(c * f)) by (nonlinear_arith)
                requires
                    0 <= -c <= m,
                    f == 1000,
            ;
            lemma_div_is_ordered((-c) * f, f * m, m);
            lemma_div_by_multiple(f, m);
            lemma_div_pos_is_pos((-c) * f, m);
        }
    }

    /// The rescaled vector keeps at least one nonzero coordinate.
    proof fn lemma_unit_nonzero(v: Vec3, m: int, n2: int)
        requires
            n2 == v.spec_norm2(),
            m * m <= n2,
            n2 < (m + 1) * (m + 1),
            m >= 1,
            v != Vec3::spec_zero(),
        ensures
            v.spec_unit(m) != Vec3::spec_zero(),
    {
        Self::lemma_coord_le_root(v.x as int, v.y as int, v.z as int, m, n2);
        Self::lemma_coord_le_root(v.y as int, v.x as int, v.z as int, m, n2);
        Self::lemma_coord_le_root(v.z as int, v.x as int, v.y as int, m, n2);
        Self::lemma_scaled_div_at_most_one(v.x as int, m);
        Self::lemma_scaled_div_at_most_one(v.y as int, m);
        Self::lemma_scaled_div_at_most_one(v.z as int, m);
        let ax = if v.x >= 0 { v.x as int } else { -v.x as int };
        let ay = if v.y >= 0 { v.y as int } else { -v.y as int };
        let az = if v.z >= 0 { v.z as int } else { -v.z as int };
        let a = if ax >= ay && ax >= az {
            ax
        } else if ay >= az {
            ay
        } else {
            az
        };
        assert(a >= 1);
        assert(v.x * v.x <= a * a) by (nonlinear_arith)
            requires
                -a <= v.x <= a,
        ;
        assert(v.y * v.y <= a * a) by (nonlinear_arith)
            requires
                -a <= v.y <= a,
        ;
        assert(v.z * v.z <= a * a) by (nonlinear_arith)
            requires
                -a <= v.z <= a,
        ;
        assert(m <= 2 * a) by (nonlinear_arith)
            requires
                m * m <= 3 * (a * a),
                m >= 0,
                a >= 1,
        ;
        if a == ax {
            Self::lemma_scaled_div_of_max_nonzero(v.x as int, a, m);
            assert(spec_div_trunc(v.x * FIX_ONE, m) != 0);
        } else if a == ay {
            Self::lemma_scaled_div_of_max_nonzero(v.y as int, a, m);
            assert(spec_div_trunc(v.y * FIX_ONE, m) != 0);
        } else {
            Self::lemma_scaled_div_of_max_nonzero(v.z as int, a, m);
            assert(spec_div_trunc(v.z * FIX_ONE, m) != 0);
        }
    }

    /// A coordinate with `|c| = a >= m / 2` keeps a nonzero quotient after
    /// the rescale.
    proof fn lemma_scaled_div_of_max_nonzero(c: int, a: int, m: int)
        requires
            a == if c >= 0 { c } else { -c },
            a >= 1,
            m >= 1,
            m <= 2 * a,
        ensures
            spec_div_trunc(c * FIX_ONE, m) != 0,
    {
        let f = FIX_ONE as int;
        assert(a * f >= m && (-c) * f == -(c * f) && c * f == (if c >= 0 { a * f } else {
            -(a * f)
        })) by (nonlinear_arith)
            requires
                m <= 2 * a,
                a >= 1,
                f == 1000,
                a == if c >= 0 { c } else { -c },
        ;
        lemma_div_is_ordered(m, a * f, m);
        assert(m / m == 1) by {
            lemma_div_by_multiple(1, m);
        }
        assert(a * f / m >= 1);
    }

    /// One damping step toward `target`; stays within range.
    pub fn follow(&self, target: &Vec3) -> (r: Vec3)
        requires
            self.in_range(),
            target.in_range(),
        ensures
            r == Vec3::spec_follow(*self, *target),
            r.in_range(),
    {
        proof {
            lemma_div_trunc_bounds(target.x - self.x, 5);
            lemma_div_trunc_bounds(target.y - self.y, 5);
            lemma_div_trunc_bounds(target.z - self.z, 5);
        }
        Vec3 {
            x: self.x + div_trunc(target.x - self.x, 5),
            y: self.y + div_trunc(target.y - self.y, 5),
            z: self.z + div_trunc(target.z - self.z, 5),
        }
    }
}

} // verus!
