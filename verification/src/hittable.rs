//! The intersection protocol's result record.
//!
//! Normal convention: every primitive computes the *outward* geometric
//! normal, and the stored normal is flipped to face the incoming ray
//! (`front_face` records which side the ray arrived from).  All material
//! scatter logic relies on this ray-facing convention.

use vstd::prelude::*;
use crate::material::Material;
use crate::ray::Ray;
use crate::vec3::{dot_spec, vneg_spec, Vec3};

verus! {

/// The result of one successful ray/primitive intersection: hit point,
/// ray-facing unit normal, ray parameter, face orientation, and the
/// material at the hit.
#[derive(Clone, Copy, PartialEq, Eq, Structural, Debug)]
pub struct HitRecord {
    pub point: Vec3,
    pub normal: Vec3,
    pub t: i64,
    pub front_face: bool,
    pub material: Material,
}

/// The record built from an outward geometric normal: `front_face` is true
/// iff the ray approaches from the outward side, and the stored normal is
/// the outward normal flipped, when needed, to face the ray.
pub open spec fn with_face_normal_spec(
    material: Material,
    point: Vec3,
    outward_normal: Vec3,
    t: i64,
    ray: Ray,
) -> HitRecord {
    let ff = dot_spec(ray.direction, outward_normal) < 0;
    HitRecord {
        point,
        normal: if ff {
            outward_normal
        } else {
            vneg_spec(outward_normal)
        },
        t,
        front_face: ff,
        material,
    }
}

impl HitRecord {
    /// Build a record from the outward geometric normal, orienting the
    /// stored normal toward the incoming ray.
    pub fn with_face_normal(
        material: Material,
        point: Vec3,
        outward_normal: Vec3,
        t: i64,
        ray: &Ray,
    ) -> (r: HitRecord)
        ensures
            r == with_face_normal_spec(material, point, outward_normal, t, *ray),
            r.front_face == (dot_spec(ray.direction, outward_normal) < 0),
            r.front_face ==> r.normal == outward_normal,
            !r.front_face ==> r.normal == vneg_spec(outward_normal),
            r.point == point && r.t == t && r.material == material,
    {
        let front_face = ray.direction.dot(outward_normal) < 0;
        let normal = if front_face {
            outward_normal
        } else {
            outward_normal.neg()
        };
        HitRecord { point, normal, t, front_face, material }
    }
}

} // verus!
