//! Three-component vectors over fixed-point scalars, used for points,
//! directions and RGB colors alike.

use vstd::prelude::*;
use crate::fixed::{
    fadd, fadd_spec, fdiv, fdiv_spec, fmul, fmul_spec, fneg, fneg_spec, fsqrt, fsqrt_spec, fsub,
    fsub_spec, lemma_fmul_one, lemma_fmul_square_nonneg, SCALE,
};

verus! {

/// A vector (or point, or RGB color) of three fixed-point scalars.
#[derive(Clone, Copy, PartialEq, Eq, Structural, Debug)]
pub struct Vec3 {
    pub x: i64,
    pub y: i64,
    pub z: i64,
}

/// Componentwise saturating sum.
pub open spec fn vadd_spec(a: Vec3, b: Vec3) -> Vec3 {
    Vec3 { x: fadd_spec(a.x, b.x), y: fadd_spec(a.y, b.y), z: fadd_spec(a.z, b.z) }
}

/// Componentwise saturating difference.
pub open spec fn vsub_spec(a: Vec3, b: Vec3) -> Vec3 {
    Vec3 { x: fsub_spec(a.x, b.x), y: fsub_spec(a.y, b.y), z: fsub_spec(a.z, b.z) }
}

/// Componentwise saturating negation.
pub open spec fn vneg_spec(a: Vec3) -> Vec3 {
    Vec3 { x: fneg_spec(a.x), y: fneg_spec(a.y), z: fneg_spec(a.z) }
}

/// Each component scaled by the fixed-point scalar `t`.
pub open spec fn vscale_spec(t: i64, a: Vec3) -> Vec3 {
    Vec3 { x: fmul_spec(t, a.x), y: fmul_spec(t, a.y), z: fmul_spec(t, a.z) }
}

/// Each component divided by the fixed-point scalar `t`.
pub open spec fn vdivs_spec(a: Vec3, t: i64) -> Vec3 {
    Vec3 { x: fdiv_spec(a.x, t), y: fdiv_spec(a.y, t), z: fdiv_spec(a.z, t) }
}

/// Componentwise product; for colors this is the attenuation multiply.
pub open spec fn vmul_spec(a: Vec3, b: Vec3) -> Vec3 {
    Vec3 { x: fmul_spec(a.x, b.x), y: fmul_spec(a.y, b.y), z: fmul_spec(a.z, b.z) }
}

/// Dot product over fixed-point scalars, summed left to right.
pub open spec fn dot_spec(a: Vec3, b: Vec3) -> i64 {
    fadd_spec(fadd_spec(fmul_spec(a.x, b.x), fmul_spec(a.y, b.y)), fmul_spec(a.z, b.z))
}

/// Squared length: the dot product of a vector with itself.
pub open spec fn len_sq_spec(a: Vec3) -> i64 {
    dot_spec(a, a)
}

/// Length: fixed-point square root of the squared length.
pub open spec fn len_spec(a: Vec3) -> i64 {
    fsqrt_spec(len_sq_spec(a))
}

/// The vector scaled to unit length (within the fixed-point grid):
/// each component divided by the length.
pub open spec fn unit_spec(a: Vec3) -> Vec3 {
    vdivs_spec(a, len_spec(a))
}

/// Cross product over fixed-point scalars.
pub open spec fn cross_spec(a: Vec3, b: Vec3) -> Vec3 {
    Vec3 {
        x: fsub_spec(fmul_spec(a.y, b.z), fmul_spec(a.z, b.y)),
        y: fsub_spec(fmul_spec(a.z, b.x), fmul_spec(a.x, b.z)),
        z: fsub_spec(fmul_spec(a.x, b.y), fmul_spec(a.y, b.x)),
    }
}

/// Mirror reflection of `v` about the normal `n`: `v - 2 (v . n) n`.
pub open spec fn reflect_spec(v: Vec3, n: Vec3) -> Vec3 {
    let d = dot_spec(v, n);
    vsub_spec(v, vscale_spec(fadd_spec(d, d), n))
}

/// Threshold under which a direction counts as degenerate: components
/// this small square to values that vanish on the fixed-point grid, so
/// such a vector cannot be normalized and the scattering logic
/// substitutes the surface normal for it.
pub const NEAR_ZERO_EPS: i64 = 8;

/// All three components are smaller in magnitude than `NEAR_ZERO_EPS`.
pub open spec fn near_zero_spec(a: Vec3) -> bool {
    -NEAR_ZERO_EPS < a.x < NEAR_ZERO_EPS && -NEAR_ZERO_EPS < a.y < NEAR_ZERO_EPS
        && -NEAR_ZERO_EPS < a.z < NEAR_ZERO_EPS
}

impl Vec3 {
    /// Build a vector from its three raw fixed-point components.
    pub fn new(x: i64, y: i64, z: i64) -> (r: Vec3)
        ensures
            r == (Vec3 { x, y, z }),
    {
        Vec3 { x, y, z }
    }

    /// The zero vector (also the color black).
    pub fn zero() -> (r: Vec3)
        ensures
            r == (Vec3 { x: 0i64, y: 0i64, z: 0i64 }),
    {
        Vec3 { x: 0, y: 0, z: 0 }
    }

    /// Componentwise saturating sum.
    pub fn add(self, b: Vec3) -> (r: Vec3)
        ensures
            r == vadd_spec(self, b),
    {
        Vec3 { x: fadd(self.x, b.x), y: fadd(self.y, b.y), z: fadd(self.z, b.z) }
    }

    /// Componentwise saturating difference.
    pub fn sub(self, b: Vec3) -> (r: Vec3)
        ensures
            r == vsub_spec(self, b),
    {
        Vec3 { x: fsub(self.x, b.x), y: fsub(self.y, b.y), z: fsub(self.z, b.z) }
    }

    /// Componentwise saturating negation.
    pub fn neg(self) -> (r: Vec3)
        ensures
            r == vneg_spec(self),
    {
        Vec3 { x: fneg(self.x), y: fneg(self.y), z: fneg(self.z) }
    }

    /// Each component scaled by the fixed-point scalar `t`.
    pub fn scale(self, t: i64) -> (r: Vec3)
        ensures
            r == vscale_spec(t, self),
    {
        Vec3 { x: fmul(t, self.x), y: fmul(t, self.y), z: fmul(t, self.z) }
    }

    /// Each component divided by the fixed-point scalar `t`.
    pub fn div_scalar(self, t: i64) -> (r: Vec3)
        requires
            t != 0,
        ensures
            r == vdivs_spec(self, t),
    {
        Vec3 { x: fdiv(self.x, t), y: fdiv(self.y, t), z: fdiv(self.z, t) }
    }

    /// Componentwise product (attenuation multiply for colors).
    pub fn mul(self, b: Vec3) -> (r: Vec3)
        ensures
            r == vmul_spec(self, b),
    {
        Vec3 { x: fmul(self.x, b.x), y: fmul(self.y, b.y), z: fmul(self.z, b.z) }
    }

    /// Dot product.
    pub fn dot(self, b: Vec3) -> (r: i64)
        ensures
            r == dot_spec(self, b),
    {
        fadd(fadd(fmul(self.x, b.x), fmul(self.y, b.y)), fmul(self.z, b.z))
    }

    /// Squared length.  Always nonnegative (`lemma_len_sq_nonneg`).
    pub fn length_squared(self) -> (r: i64)
        ensures
            r == len_sq_spec(self),
            r >= 0,
    {
        proof {
            lemma_len_sq_nonneg(self);
        }
        self.dot(self)
    }

    /// Length.
    pub fn length(self) -> (r: i64)
        ensures
            r == len_spec(self),
            r >= 0,
    {
        let sq = self.length_squared();
        fsqrt(sq)
    }

    /// The vector scaled to unit length (within the fixed-point grid).
    /// The squared length must not round to zero.
    pub fn unit(self) -> (r: Vec3)
        requires
            len_sq_spec(self) != 0,
        ensures
            r == unit_spec(self),
    {
        let len = self.length();
        proof {
            lemma_len_sq_nonneg(self);
            lemma_len_pos(self);
        }
        self.div_scalar(len)
    }

    /// Whether every component is below the near-zero threshold.
    pub fn near_zero(self) -> (r: bool)
        ensures
            r == near_zero_spec(self),
    {
        self.x > -NEAR_ZERO_EPS && self.x < NEAR_ZERO_EPS && self.y > -NEAR_ZERO_EPS
            && self.y < NEAR_ZERO_EPS && self.z > -NEAR_ZERO_EPS && self.z < NEAR_ZERO_EPS
    }

    /// Cross product.
    pub fn cross(self, b: Vec3) -> (r: Vec3)
        ensures
            r == cross_spec(self, b),
    {
        Vec3 {
            x: fsub(fmul(self.y, b.z), fmul(self.z, b.y)),
            y: fsub(fmul(self.z, b.x), fmul(self.x, b.z)),
            z: fsub(fmul(self.x, b.y), fmul(self.y, b.x)),
        }
    }

    /// Mirror reflection of `self` about the normal `n`.
    pub fn reflect(self, n: Vec3) -> (r: Vec3)
        ensures
            r == reflect_spec(self, n),
    {
        let d = self.dot(n);
        self.sub(n.scale(fadd(d, d)))
    }
}

/// A squared length never comes out negative: each summand is a clipped,
/// rescaled square, and saturating sums of nonnegative scalars stay
/// nonnegative.
pub proof fn lemma_len_sq_nonneg(a: Vec3)
    ensures
        len_sq_spec(a) >= 0,
{
    lemma_fmul_square_nonneg(a.x);
    lemma_fmul_square_nonneg(a.y);
    lemma_fmul_square_nonneg(a.z);
}

/// Multiplying a color by white is exact: white attenuates nothing.
pub proof fn lemma_vmul_white(v: Vec3)
    ensures
        vmul_spec(Vec3 { x: SCALE, y: SCALE, z: SCALE }, v) == v,
{
    lemma_fmul_one(v.x);
    lemma_fmul_one(v.y);
    lemma_fmul_one(v.z);
}

/// A nonzero squared length has a positive fixed-point root.
pub proof fn lemma_len_pos(a: Vec3)
    requires
        len_sq_spec(a) != 0,
    ensures
        len_spec(a) > 0,
{
    lemma_len_sq_nonneg(a);
    let s = len_sq_spec(a) as int;
    let n = s * (SCALE as int);
    assert(65536 <= n < 1208925819614629174706176) by (nonlinear_arith)
        requires
            1 <= s < 0x8000000000000000,
            n == s * (SCALE as int),
            SCALE == 65536,
    ;
    crate::fixed::lemma_isqrt_exists(n);
    let r = crate::fixed::isqrt_spec(n);
    assert(r >= 1) by (nonlinear_arith)
        requires
            0 <= r,
            n < (r + 1) * (r + 1),
            n >= 65536,
    ;
    assert(r < 1099511627776) by (nonlinear_arith)
        requires
            0 <= r,
            r * r <= n,
            n < 1208925819614629174706176,
    ;
}

} // verus!
