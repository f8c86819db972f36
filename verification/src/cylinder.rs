//! Ray/cylinder intersection.
//!
//! The cylinder is an infinite tube of radius `radius` about the local
//! vertical axis, clipped to local heights `[0, height]`, placed in world
//! space by a translation and a rotation about the vertical axis.  The
//! incoming ray is moved into the local frame (subtract `translation +
//! center`, rotate by the negated angle), the 2D quadratic in the local
//! x/z components is solved there, and the accepted hit point and outward
//! normal are moved back out (rotate by the positive angle; the point is
//! re-translated, the normal is only rotated).  Rotating with `(cos,
//! -sin)` and then with `(cos, sin)` are mathematically inverse maps, so
//! the two steps cancel up to fixed-point rounding.

use vstd::prelude::*;
use crate::fixed::{
    abs_spec, fadd, fadd_spec, fdiv, fdiv_spec, fmul, fmul_spec, fneg, fneg_spec, fsqrt,
    fsqrt_spec, fsub, fsub_spec, lemma_fdiv_monotone, lemma_fmul_error, lemma_fmul_square_nonneg,
    lemma_fmul_zero, lemma_fsqrt_nonneg, lemma_mul_abs, SCALE,
};
use crate::hittable::{with_face_normal_spec, HitRecord};
use crate::material::{material_wf, Material};
use crate::ray::{ray_at_spec, Ray};
use crate::vec3::{len_sq_spec, unit_spec, vadd_spec, vsub_spec, Vec3};

verus! {

/// A vertical-axis cylinder with a rigid placement transform.  The
/// rotation about the vertical axis is carried as its cosine and sine
/// (`rot_cos`, `rot_sin`), the only trigonometric data the intersection
/// needs; the configuration front end computes them from the angle.
#[derive(Clone, Copy, PartialEq, Eq, Structural, Debug)]
pub struct Cylinder {
    pub center: Vec3,
    pub height: i64,
    pub radius: i64,
    pub material: Material,
    pub translation: Vec3,
    pub rot_cos: i64,
    pub rot_sin: i64,
}

/// Slack admitted around the unit circle for a rotation's cosine and
/// sine pair: a cosine and sine rounded to the fixed-point grid land with
/// `c^2 + s^2` within this band of `SCALE^2`.
pub const ROT_TOL: i64 = 196608;

/// The pair `(c, s)` really is a rotation's cosine and sine on the grid:
/// each within `[-1, 1]`, and the pair on the unit circle within
/// `ROT_TOL`.  Under this the rotate-in/rotate-out pair of maps are
/// inverse within rounding (`lemma_rotate_y_round_trip`).
pub open spec fn rotation_wf(c: i64, s: i64) -> bool {
    &&& -SCALE <= c <= SCALE
    &&& -SCALE <= s <= SCALE
    &&& abs_spec((c as int) * (c as int) + (s as int) * (s as int) - 4294967296) <= ROT_TOL
}

/// The data model's demands on a cylinder: positive height and radius, a
/// well-formed material, and a genuine rotation (its cosine and sine on
/// the unit circle within tolerance).
pub open spec fn cylinder_wf(c: Cylinder) -> bool {
    c.height > 0 && c.radius > 0 && material_wf(c.material) && rotation_wf(c.rot_cos, c.rot_sin)
}

/// Rotation about the vertical axis with cosine `c` and sine `s`: maps
/// `(x, z)` to `(c x + s z, c z - s x)`, leaving the height untouched.
pub open spec fn rotate_y_spec(v: Vec3, c: i64, s: i64) -> Vec3 {
    Vec3 {
        x: fadd_spec(fmul_spec(c, v.x), fmul_spec(s, v.z)),
        y: v.y,
        z: fsub_spec(fmul_spec(c, v.z), fmul_spec(s, v.x)),
    }
}

/// The incoming ray moved into the cylinder's local frame: subtract
/// `translation + center` from the origin, rotate origin and direction by
/// the negated angle.
pub open spec fn transform_ray_spec(cyl: Cylinder, ray: Ray) -> Ray {
    let o = vsub_spec(vsub_spec(ray.origin, cyl.translation), cyl.center);
    Ray {
        origin: rotate_y_spec(o, cyl.rot_cos, fneg_spec(cyl.rot_sin)),
        direction: rotate_y_spec(ray.direction, cyl.rot_cos, fneg_spec(cyl.rot_sin)),
    }
}

/// Rotation about the vertical axis fixes the axis: a vector with no
/// horizontal part is returned unchanged, whatever the pair `(c, s)`.
pub proof fn lemma_rotate_y_fixes_axis(v: Vec3, c: i64, s: i64)
    requires
        v.x == 0,
        v.z == 0,
    ensures
        rotate_y_spec(v, c, s) == v,
{
    lemma_fmul_zero(c);
    lemma_fmul_zero(s);
}

/// One product of a rotation coefficient with a bounded component: the
/// rescaled result sits within one grid step of the exact product, and
/// truncation never grows the component's magnitude.
proof fn lemma_rot_product(a: i64, b: i64)
    requires
        -SCALE <= a <= SCALE,
        -70368744177664 <= b <= 70368744177664,
    ensures
        abs_spec((SCALE as int) * (fmul_spec(a, b) as int) - (a as int) * (b as int)) < SCALE,
        abs_spec(fmul_spec(a, b) as int) <= abs_spec(b as int),
{
    lemma_mul_abs(a as int, b as int);
    assert(abs_spec((a as int) * (b as int)) <= 0x4000000000000000) by (nonlinear_arith)
        requires
            abs_spec((a as int) * (b as int)) == abs_spec(a as int) * abs_spec(b as int),
            0 <= abs_spec(a as int) <= 65536,
            0 <= abs_spec(b as int) <= 70368744177664,
    ;
    lemma_fmul_error(a, b);
    assert(abs_spec(fmul_spec(a, b) as int) <= abs_spec(b as int)) by (nonlinear_arith)
        requires
            abs_spec(fmul_spec(a, b) as int) * 65536 <= abs_spec((a as int) * (b as int)),
            abs_spec((a as int) * (b as int)) == abs_spec(a as int) * abs_spec(b as int),
            abs_spec(a as int) <= 65536,
            0 <= abs_spec(b as int),
            0 <= abs_spec(fmul_spec(a, b) as int),
    ;
}

/// Rotating into the local frame and back out is the identity within
/// rounding: under `rotation_wf`, rotating by `(c, -s)` and then by
/// `(c, s)` keeps the height exactly and reproduces each horizontal
/// component up to a relative error of `ROT_TOL / SCALE^2` plus six grid
/// steps.  The lemma holds for every admitted sine, positive or
/// negative, so instantiating it at `-s` covers the opposite composition
/// order as well.
#[verifier::rlimit(50)]
pub proof fn lemma_rotate_y_round_trip(v: Vec3, c: i64, s: i64)
    requires
        rotation_wf(c, s),
        -35184372088832 <= v.x <= 35184372088832,
        -35184372088832 <= v.z <= 35184372088832,
    ensures
        ({
            let w = rotate_y_spec(rotate_y_spec(v, c, fneg_spec(s)), c, s);
            &&& w.y == v.y
            &&& abs_spec(4294967296 * (w.x - v.x)) <= (ROT_TOL as int) * abs_spec(v.x as int)
                + 25769803776
            &&& abs_spec(4294967296 * (w.z - v.z)) <= (ROT_TOL as int) * abs_spec(v.z as int)
                + 25769803776
        }),
{
    let ci = c as int;
    let si = s as int;
    let x = v.x as int;
    let z = v.z as int;
    let ns = fneg_spec(s);
    assert(ns as int == -si);
    let m1 = fmul_spec(c, v.x);
    let m2 = fmul_spec(ns, v.z);
    let m3 = fmul_spec(c, v.z);
    let m4 = fmul_spec(ns, v.x);
    lemma_rot_product(c, v.x);
    lemma_rot_product(ns, v.z);
    lemma_rot_product(c, v.z);
    lemma_rot_product(ns, v.x);
    let ri = rotate_y_spec(v, c, ns);
    assert(ri.x == m1 + m2 && ri.z == m3 - m4);
    let e1 = 65536 * (m1 as int) - ci * x;
    let e2 = 65536 * (m2 as int) - (-si) * z;
    let e3 = 65536 * (m3 as int) - ci * z;
    let e4 = 65536 * (m4 as int) - (-si) * x;
    let m5 = fmul_spec(c, ri.x);
    let m6 = fmul_spec(s, ri.z);
    let m7 = fmul_spec(c, ri.z);
    let m8 = fmul_spec(s, ri.x);
    lemma_rot_product(c, ri.x);
    lemma_rot_product(s, ri.z);
    lemma_rot_product(c, ri.z);
    lemma_rot_product(s, ri.x);
    let w = rotate_y_spec(ri, c, s);
    assert(w.x == m5 + m6 && w.z == m7 - m8);
    assert(w.y == v.y);
    let rxi = ri.x as int;
    let rzi = ri.z as int;
    let e5 = 65536 * (m5 as int) - ci * rxi;
    let e6 = 65536 * (m6 as int) - si * rzi;
    let e7 = 65536 * (m7 as int) - ci * rzi;
    let e8 = 65536 * (m8 as int) - si * rxi;
    let g = ci * ci + si * si - 4294967296;
    assert((-si) * z == -(si * z)) by (nonlinear_arith);
    assert((-si) * x == -(si * x)) by (nonlinear_arith);
    assert(65536 * rxi == ci * x - si * z + e1 + e2);
    assert(65536 * rzi == ci * z + si * x + e3 - e4);
    let wxi = w.x as int;
    let wzi = w.z as int;
    let dx = 4294967296 * (wxi - x);
    let dz = 4294967296 * (wzi - z);
    // Expand the composition one ring step at a time.
    assert(4294967296 * wxi == 65536 * (ci * rxi) + 65536 * (si * rzi) + 65536 * (e5 + e6));
    assert(4294967296 * wzi == 65536 * (ci * rzi) - 65536 * (si * rxi) + 65536 * (e7 - e8));
    assert(65536 * (ci * rxi) == ci * (65536 * rxi)) by (nonlinear_arith);
    assert(65536 * (si * rzi) == si * (65536 * rzi)) by (nonlinear_arith);
    assert(65536 * (ci * rzi) == ci * (65536 * rzi)) by (nonlinear_arith);
    assert(65536 * (si * rxi) == si * (65536 * rxi)) by (nonlinear_arith);
    assert(ci * (65536 * rxi) == ci * (ci * x) - ci * (si * z) + ci * e1 + ci * e2)
        by (nonlinear_arith)
        requires
            65536 * rxi == ci * x - si * z + e1 + e2,
    ;
    assert(si * (65536 * rzi) == si * (ci * z) + si * (si * x) + si * e3 - si * e4)
        by (nonlinear_arith)
        requires
            65536 * rzi == ci * z + si * x + e3 - e4,
    ;
    assert(ci * (65536 * rzi) == ci * (ci * z) + ci * (si * x) + ci * e3 - ci * e4)
        by (nonlinear_arith)
        requires
            65536 * rzi == ci * z + si * x + e3 - e4,
    ;
    assert(si * (65536 * rxi) == si * (ci * x) - si * (si * z) + si * e1 + si * e2)
        by (nonlinear_arith)
        requires
            65536 * rxi == ci * x - si * z + e1 + e2,
    ;
    assert(ci * (si * z) == si * (ci * z)) by (nonlinear_arith);
    assert(ci * (si * x) == si * (ci * x)) by (nonlinear_arith);
    assert(ci * (ci * x) + si * (si * x) == (ci * ci + si * si) * x) by (nonlinear_arith);
    assert(ci * (ci * z) + si * (si * z) == (ci * ci + si * si) * z) by (nonlinear_arith);
    assert(g * x == (ci * ci + si * si) * x - 4294967296 * x) by (nonlinear_arith)
        requires
            g == ci * ci + si * si - 4294967296,
    ;
    assert(g * z == (ci * ci + si * si) * z - 4294967296 * z) by (nonlinear_arith)
        requires
            g == ci * ci + si * si - 4294967296,
    ;
    assert(dx == g * x + ci * e1 + ci * e2 + si * e3 - si * e4 + 65536 * (e5 + e6));
    assert(dz == g * z + ci * e3 - ci * e4 - si * e1 - si * e2 + 65536 * (e7 - e8));
    // Bound every term.
    let ax = abs_spec(x);
    let az = abs_spec(z);
    assert(-196608 * ax <= g * x <= 196608 * ax) by (nonlinear_arith)
        requires
            -196608 <= g <= 196608,
            0 <= ax,
            -ax <= x <= ax,
    ;
    assert(-196608 * az <= g * z <= 196608 * az) by (nonlinear_arith)
        requires
            -196608 <= g <= 196608,
            0 <= az,
            -az <= z <= az,
    ;
    assert(ci * (e1 + e2) == ci * e1 + ci * e2) by (nonlinear_arith);
    assert(si * (e3 - e4) == si * e3 - si * e4) by (nonlinear_arith);
    assert(ci * (e3 - e4) == ci * e3 - ci * e4) by (nonlinear_arith);
    assert(si * (e1 + e2) == si * e1 + si * e2) by (nonlinear_arith);
    assert(-8589934592 <= ci * (e1 + e2) <= 8589934592) by (nonlinear_arith)
        requires
            -65536 <= ci <= 65536,
            -131072 <= e1 + e2 <= 131072,
    ;
    assert(-8589934592 <= si * (e3 - e4) <= 8589934592) by (nonlinear_arith)
        requires
            -65536 <= si <= 65536,
            -131072 <= e3 - e4 <= 131072,
    ;
    assert(-8589934592 <= ci * (e3 - e4) <= 8589934592) by (nonlinear_arith)
        requires
            -65536 <= ci <= 65536,
            -131072 <= e3 - e4 <= 131072,
    ;
    assert(-8589934592 <= si * (e1 + e2) <= 8589934592) by (nonlinear_arith)
        requires
            -65536 <= si <= 65536,
            -131072 <= e1 + e2 <= 131072,
    ;
    assert(-(196608 * ax + 25769803776) <= dx <= 196608 * ax + 25769803776);
    assert(-(196608 * az + 25769803776) <= dz <= 196608 * az + 25769803776);
}

/// What `Cylinder::hit` returns: the nearest root of the local-frame 2D
/// quadratic strictly inside `(t_min, t_max)` whose local height lies in
/// `[0, height]`, as a hit record in world space, or nothing.  Degenerate
/// geometry (a ray near-parallel to the axis, a hit on the axis) never
/// hits.  Opaque so that callers reason through `hit`'s contract instead
/// of unfolding the whole quadratic.
#[verifier::opaque]
pub open spec fn cylinder_hit_spec(cyl: Cylinder, ray: Ray, t_min: i64, t_max: i64) -> Option<
    HitRecord,
> {
    let tr = transform_ray_spec(cyl, ray);
    let a = fadd_spec(
        fmul_spec(tr.direction.x, tr.direction.x),
        fmul_spec(tr.direction.z, tr.direction.z),
    );
    if a == 0 {
        None
    } else {
        let p = fadd_spec(
            fmul_spec(tr.origin.x, tr.direction.x),
            fmul_spec(tr.origin.z, tr.direction.z),
        );
        let b = fadd_spec(p, p);
        let c = fsub_spec(
            fadd_spec(fmul_spec(tr.origin.x, tr.origin.x), fmul_spec(tr.origin.z, tr.origin.z)),
            fmul_spec(cyl.radius, cyl.radius),
        );
        let ac = fmul_spec(a, c);
        let ac2 = fadd_spec(ac, ac);
        let four_ac = fadd_spec(ac2, ac2);
        let disc = fsub_spec(fmul_spec(b, b), four_ac);
        if disc < 0 {
            None
        } else {
            let sqrtd = fsqrt_spec(disc);
            let two_a = fadd_spec(a, a);
            let r1 = fdiv_spec(fsub_spec(fneg_spec(b), sqrtd), two_a);
            let root = if t_min < r1 && r1 < t_max {
                r1
            } else {
                fdiv_spec(fadd_spec(fneg_spec(b), sqrtd), two_a)
            };
            if !(t_min < root && root < t_max) {
                None
            } else {
                let point = ray_at_spec(tr, root);
                if point.y < 0 || point.y > cyl.height {
                    None
                } else {
                    let radial = Vec3 { x: point.x, y: 0i64, z: point.z };
                    if len_sq_spec(radial) == 0 {
                        None
                    } else {
                        let outward = rotate_y_spec(unit_spec(radial), cyl.rot_cos, cyl.rot_sin);
                        let world_point = vadd_spec(
                            vadd_spec(
                                rotate_y_spec(point, cyl.rot_cos, cyl.rot_sin),
                                cyl.translation,
                            ),
                            cyl.center,
                        );
                        Some(with_face_normal_spec(cyl.material, world_point, outward, root, ray))
                    }
                }
            }
        }
    }
}

/// Shrinking the query interval's upper bound never uncovers a hit: when
/// the cylinder reports nothing at a bound, or a hit no nearer than the
/// new bound, it reports nothing at the new bound.  (The quadratic's
/// roots and the height clipping do not depend on the bound, and the
/// farther root never precedes the nearer one.)
pub proof fn lemma_cylinder_hit_shrink(cyl: Cylinder, ray: Ray, t_min: i64, b1: i64, b2: i64)
    requires
        b2 <= b1,
        match cylinder_hit_spec(cyl, ray, t_min, b1) {
            None => true,
            Some(h) => b2 <= h.t,
        },
    ensures
        cylinder_hit_spec(cyl, ray, t_min, b2) is None,
{
    reveal(cylinder_hit_spec);
    let tr = transform_ray_spec(cyl, ray);
    let a = fadd_spec(
        fmul_spec(tr.direction.x, tr.direction.x),
        fmul_spec(tr.direction.z, tr.direction.z),
    );
    if a != 0 {
        lemma_fmul_square_nonneg(tr.direction.x);
        lemma_fmul_square_nonneg(tr.direction.z);
        let p = fadd_spec(
            fmul_spec(tr.origin.x, tr.direction.x),
            fmul_spec(tr.origin.z, tr.direction.z),
        );
        let b = fadd_spec(p, p);
        let c = fsub_spec(
            fadd_spec(fmul_spec(tr.origin.x, tr.origin.x), fmul_spec(tr.origin.z, tr.origin.z)),
            fmul_spec(cyl.radius, cyl.radius),
        );
        let ac = fmul_spec(a, c);
        let ac2 = fadd_spec(ac, ac);
        let four_ac = fadd_spec(ac2, ac2);
        let disc = fsub_spec(fmul_spec(b, b), four_ac);
        if disc >= 0 {
            lemma_fsqrt_nonneg(disc);
            let sqrtd = fsqrt_spec(disc);
            let two_a = fadd_spec(a, a);
            let n1 = fsub_spec(fneg_spec(b), sqrtd);
            let n2 = fadd_spec(fneg_spec(b), sqrtd);
            lemma_fdiv_monotone(n1, n2, two_a);
        }
    }
}

/// Rotation about the vertical axis with cosine `c` and sine `s`.
fn rotate_y(v: Vec3, c: i64, s: i64) -> (r: Vec3)
    ensures
        r == rotate_y_spec(v, c, s),
{
    Vec3 {
        x: fadd(fmul(c, v.x), fmul(s, v.z)),
        y: v.y,
        z: fsub(fmul(c, v.z), fmul(s, v.x)),
    }
}

impl Cylinder {
    /// The incoming ray moved into this cylinder's local frame.
    fn transform_ray(&self, ray: &Ray) -> (r: Ray)
        ensures
            r == transform_ray_spec(*self, *ray),
    {
        let o = ray.origin.sub(self.translation).sub(self.center);
        let neg_sin = fneg(self.rot_sin);
        Ray {
            origin: rotate_y(o, self.rot_cos, neg_sin),
            direction: rotate_y(ray.direction, self.rot_cos, neg_sin),
        }
    }

    /// The nearest intersection of `ray` with this cylinder strictly
    /// inside `(t_min, t_max)`, or `None`.  Any accepted hit's local
    /// height coordinate lies within `[0, height]`; the record's normal is
    /// the local outward radial direction rotated back to world space,
    /// flipped to face the ray.
    pub fn hit(&self, ray: &Ray, t_min: i64, t_max: i64) -> (r: Option<HitRecord>)
        requires
            cylinder_wf(*self),
        ensures
            r == cylinder_hit_spec(*self, *ray, t_min, t_max),
            r matches Some(h) ==> t_min < h.t < t_max,
            r matches Some(h) ==> h.material == self.material && material_wf(h.material),
            r matches Some(h) ==> {
                let local = ray_at_spec(transform_ray_spec(*self, *ray), h.t);
                0 <= local.y <= self.height
            },
            r matches Some(h) ==> h.normal.y == 0,
    {
        proof {
            reveal(cylinder_hit_spec);
        }
        let tr = self.transform_ray(ray);
        let a = fadd(fmul(tr.direction.x, tr.direction.x), fmul(tr.direction.z, tr.direction.z));
        if a == 0 {
            return None;
        }
        proof {
            lemma_fmul_square_nonneg(tr.direction.x);
            lemma_fmul_square_nonneg(tr.direction.z);
        }
        let p = fadd(fmul(tr.origin.x, tr.direction.x), fmul(tr.origin.z, tr.direction.z));
        let b = fadd(p, p);
        let c = fsub(
            fadd(fmul(tr.origin.x, tr.origin.x), fmul(tr.origin.z, tr.origin.z)),
            fmul(self.radius, self.radius),
        );
        let ac = fmul(a, c);
        let ac2 = fadd(ac, ac);
        let four_ac = fadd(ac2, ac2);
        let disc = fsub(fmul(b, b), four_ac);
        if disc < 0 {
            return None;
        }
        let sqrtd = fsqrt(disc);
        let two_a = fadd(a, a);
        let mut root = fdiv(fsub(fneg(b), sqrtd), two_a);
        if !(t_min < root && root < t_max) {
            root = fdiv(fadd(fneg(b), sqrtd), two_a);
            if !(t_min < root && root < t_max) {
                return None;
            }
        }
        let point = tr.at(root);
        if point.y < 0 || point.y > self.height {
            return None;
        }
        let radial = Vec3 { x: point.x, y: 0, z: point.z };
        if radial.length_squared() == 0 {
            return None;
        }
        let radial_unit = radial.unit();
        // The radial direction is horizontal, and division and rotation
        // about the vertical axis keep a zero height component exactly.
        assert(radial_unit.y == 0) by {
            crate::vec3::lemma_len_pos(radial);
            vstd::arithmetic::div_mod::lemma_div_basics_1(
                abs_spec(crate::vec3::len_spec(radial) as int),
            );
        }
        let outward = rotate_y(radial_unit, self.rot_cos, self.rot_sin);
        let world_point = rotate_y(point, self.rot_cos, self.rot_sin).add(self.translation).add(
            self.center,
        );
        Some(HitRecord::with_face_normal(self.material, world_point, outward, root, ray))
    }
}

} // verus!
