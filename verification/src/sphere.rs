//! Ray/sphere intersection: the nearest root of the quadratic
//! `|origin + t * direction - center|^2 = radius^2` inside the query
//! interval.

use vstd::prelude::*;
use crate::fixed::{
    fadd, fadd_spec, fdiv, fdiv_spec, fmul, fmul_spec, fneg, fneg_spec, fsqrt, fsqrt_spec, fsub,
    fsub_spec, lemma_fdiv_monotone, lemma_fsqrt_nonneg,
};
use crate::hittable::{with_face_normal_spec, HitRecord};
use crate::material::{material_wf, Material};
use crate::ray::{ray_at_spec, Ray};
use crate::vec3::{
    dot_spec, len_sq_spec, lemma_len_sq_nonneg, vdivs_spec, vneg_spec, vsub_spec, Vec3,
};

verus! {

/// A sphere: center, positive radius, and its surface material.
#[derive(Clone, Copy, PartialEq, Eq, Structural, Debug)]
pub struct Sphere {
    pub center: Vec3,
    pub radius: i64,
    pub material: Material,
}

/// The data model's demands on a sphere: a positive radius and a
/// well-formed material.
pub open spec fn sphere_wf(s: Sphere) -> bool {
    s.radius > 0 && material_wf(s.material)
}

/// What `Sphere::hit` returns: the nearest quadratic root strictly inside
/// `(t_min, t_max)`, as a hit record, or nothing.  A degenerate ray
/// direction (squared length rounding to zero) never hits.  Opaque so
/// that callers reason through `hit`'s contract instead of unfolding the
/// whole quadratic.
#[verifier::opaque]
pub open spec fn sphere_hit_spec(s: Sphere, ray: Ray, t_min: i64, t_max: i64) -> Option<
    HitRecord,
> {
    let oc = vsub_spec(ray.origin, s.center);
    let a = len_sq_spec(ray.direction);
    if a == 0 {
        None
    } else {
        let half_b = dot_spec(oc, ray.direction);
        let c = fsub_spec(len_sq_spec(oc), fmul_spec(s.radius, s.radius));
        let disc = fsub_spec(fmul_spec(half_b, half_b), fmul_spec(a, c));
        if disc < 0 {
            None
        } else {
            let sqrtd = fsqrt_spec(disc);
            let r1 = fdiv_spec(fsub_spec(fneg_spec(half_b), sqrtd), a);
            let root = if t_min < r1 && r1 < t_max {
                r1
            } else {
                fdiv_spec(fadd_spec(fneg_spec(half_b), sqrtd), a)
            };
            if !(t_min < root && root < t_max) {
                None
            } else {
                let point = ray_at_spec(ray, root);
                let outward = vdivs_spec(vsub_spec(point, s.center), s.radius);
                Some(with_face_normal_spec(s.material, point, outward, root, ray))
            }
        }
    }
}

/// Shrinking the query interval's upper bound never uncovers a hit: when
/// the sphere reports nothing at a bound, or a hit no nearer than the new
/// bound, it reports nothing at the new bound.  (The quadratic's roots do
/// not depend on the bound, and the farther root never precedes the
/// nearer one.)
pub proof fn lemma_sphere_hit_shrink(s: Sphere, ray: Ray, t_min: i64, b1: i64, b2: i64)
    requires
        b2 <= b1,
        match sphere_hit_spec(s, ray, t_min, b1) {
            None => true,
            Some(h) => b2 <= h.t,
        },
    ensures
        sphere_hit_spec(s, ray, t_min, b2) is None,
{
    reveal(sphere_hit_spec);
    let oc = vsub_spec(ray.origin, s.center);
    let a = len_sq_spec(ray.direction);
    if a != 0 {
        lemma_len_sq_nonneg(ray.direction);
        let half_b = dot_spec(oc, ray.direction);
        let c = fsub_spec(len_sq_spec(oc), fmul_spec(s.radius, s.radius));
        let disc = fsub_spec(fmul_spec(half_b, half_b), fmul_spec(a, c));
        if disc >= 0 {
            lemma_fsqrt_nonneg(disc);
            let sqrtd = fsqrt_spec(disc);
            let n1 = fsub_spec(fneg_spec(half_b), sqrtd);
            let n2 = fadd_spec(fneg_spec(half_b), sqrtd);
            lemma_fdiv_monotone(n1, n2, a);
        }
    }
}

impl Sphere {
    /// The nearest intersection of `ray` with this sphere strictly inside
    /// `(t_min, t_max)`, or `None`.  The record's normal is the outward
    /// radial direction `(point - center) / radius`, flipped to face the
    /// ray; `front_face` says whether the ray arrived from outside.
    pub fn hit(&self, ray: &Ray, t_min: i64, t_max: i64) -> (r: Option<HitRecord>)
        requires
            sphere_wf(*self),
        ensures
            r == sphere_hit_spec(*self, *ray, t_min, t_max),
            r matches Some(h) ==> t_min < h.t < t_max,
            r matches Some(h) ==> h.material == self.material && material_wf(h.material),
            r matches Some(h) ==> h.point == ray_at_spec(*ray, h.t),
            r matches Some(h) ==> {
                let outward = vdivs_spec(vsub_spec(h.point, self.center), self.radius);
                &&& h.front_face == (dot_spec(ray.direction, outward) < 0)
                &&& h.normal == if h.front_face {
                    outward
                } else {
                    vneg_spec(outward)
                }
            },
    {
        proof {
            reveal(sphere_hit_spec);
        }
        let oc = ray.origin.sub(self.center);
        let a = ray.direction.length_squared();
        if a == 0 {
            return None;
        }
        let half_b = oc.dot(ray.direction);
        let c = fsub(oc.length_squared(), fmul(self.radius, self.radius));
        let disc = fsub(fmul(half_b, half_b), fmul(a, c));
        if disc < 0 {
            return None;
        }
        let sqrtd = fsqrt(disc);
        let mut root = fdiv(fsub(fneg(half_b), sqrtd), a);
        if !(t_min < root && root < t_max) {
            root = fdiv(fadd(fneg(half_b), sqrtd), a);
            if !(t_min < root && root < t_max) {
                return None;
            }
        }
        let point = ray.at(root);
        let outward = point.sub(self.center).div_scalar(self.radius);
        Some(HitRecord::with_face_normal(self.material, point, outward, root, ray))
    }
}

} // verus!
