//! The ray primitive: an origin and a direction, parameterized by a
//! fixed-point scalar `t`.

use vstd::prelude::*;
use crate::vec3::{vadd_spec, vscale_spec, Vec3};

verus! {

/// A ray `origin + t * direction`.  The direction need not be unit length.
#[derive(Clone, Copy, PartialEq, Eq, Structural, Debug)]
pub struct Ray {
    pub origin: Vec3,
    pub direction: Vec3,
}

/// The point a ray reaches at parameter `t`.
pub open spec fn ray_at_spec(r: Ray, t: i64) -> Vec3 {
    vadd_spec(r.origin, vscale_spec(t, r.direction))
}

impl Ray {
    /// Build a ray from origin and direction.
    pub fn new(origin: Vec3, direction: Vec3) -> (r: Ray)
        ensures
            r == (Ray { origin, direction }),
    {
        Ray { origin, direction }
    }

    /// The point this ray reaches at parameter `t`: `origin + t * direction`.
    pub fn at(&self, t: i64) -> (p: Vec3)
        ensures
            p == ray_at_spec(*self, t),
    {
        self.origin.add(self.direction.scale(t))
    }
}

} // verus!
