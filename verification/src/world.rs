//! The scene: an ordered collection of intersectable entities, aggregated
//! into "closest hit across the scene."

use vstd::prelude::*;
use crate::cylinder::{cylinder_hit_spec, cylinder_wf, Cylinder};
use crate::hittable::HitRecord;
use crate::material::material_wf;
use crate::ray::Ray;
use crate::sphere::{sphere_hit_spec, sphere_wf, Sphere};

verus! {

/// A geometric primitive: the closed set of shape variants the engine
/// intersects rays with.
#[derive(Clone, Copy, PartialEq, Eq, Structural, Debug)]
pub enum Shape {
    Sphere(Sphere),
    Cylinder(Cylinder),
}

/// The data model's demands on a shape.
pub open spec fn shape_wf(s: Shape) -> bool {
    match s {
        Shape::Sphere(sp) => sphere_wf(sp),
        Shape::Cylinder(cy) => cylinder_wf(cy),
    }
}

/// What `Shape::hit` returns, per variant.
pub open spec fn shape_hit_spec(s: Shape, ray: Ray, t_min: i64, t_max: i64) -> Option<HitRecord> {
    match s {
        Shape::Sphere(sp) => sphere_hit_spec(sp, ray, t_min, t_max),
        Shape::Cylinder(cy) => cylinder_hit_spec(cy, ray, t_min, t_max),
    }
}

impl Shape {
    /// The nearest intersection of `ray` with this shape strictly inside
    /// `(t_min, t_max)`, or `None`.
    pub fn hit(&self, ray: &Ray, t_min: i64, t_max: i64) -> (r: Option<HitRecord>)
        requires
            shape_wf(*self),
        ensures
            r == shape_hit_spec(*self, *ray, t_min, t_max),
            r matches Some(h) ==> t_min < h.t < t_max && material_wf(h.material),
    {
        match self {
            Shape::Sphere(sp) => sp.hit(ray, t_min, t_max),
            Shape::Cylinder(cy) => cy.hit(ray, t_min, t_max),
        }
    }
}

/// The closest-hit fold from entity `i` on, having already seen a best
/// hit `best` no farther than `closest`: each later entity is queried with
/// the shrunk upper bound, so it can only replace the best hit with a
/// strictly nearer one.  Ties go to the earliest entity.
pub open spec fn world_hit_from_spec(
    objs: Seq<Shape>,
    i: int,
    ray: Ray,
    t_min: i64,
    closest: i64,
    best: Option<HitRecord>,
) -> Option<HitRecord>
    decreases objs.len() - i,
{
    if i < 0 || i >= objs.len() {
        best
    } else {
        match shape_hit_spec(objs[i], ray, t_min, closest) {
            Some(h) => world_hit_from_spec(objs, i + 1, ray, t_min, h.t, Some(h)),
            None => world_hit_from_spec(objs, i + 1, ray, t_min, closest, best),
        }
    }
}

/// The scene's aggregate query: the closest hit across all entities
/// strictly inside `(t_min, t_max)`, or `None`.
pub open spec fn world_hit_spec(w: World, ray: Ray, t_min: i64, t_max: i64) -> Option<HitRecord> {
    world_hit_from_spec(w.objects@, 0, ray, t_min, t_max, None)
}

/// Every entity in the scene is well formed.
pub open spec fn world_wf(w: World) -> bool {
    forall|i: int| 0 <= i < w.objects@.len() ==> shape_wf(#[trigger] w.objects@[i])
}

/// A hit a shape reports lies strictly inside the query interval.
pub proof fn lemma_shape_hit_interval(s: Shape, ray: Ray, t_min: i64, t_max: i64)
    ensures
        match shape_hit_spec(s, ray, t_min, t_max) {
            None => true,
            Some(h) => t_min < h.t < t_max,
        },
{
    reveal(crate::sphere::sphere_hit_spec);
    reveal(crate::cylinder::cylinder_hit_spec);
}

/// Shrinking the query interval's upper bound never uncovers a hit, for
/// any shape variant.
pub proof fn lemma_shape_hit_shrink(s: Shape, ray: Ray, t_min: i64, b1: i64, b2: i64)
    requires
        b2 <= b1,
        match shape_hit_spec(s, ray, t_min, b1) {
            None => true,
            Some(h) => b2 <= h.t,
        },
    ensures
        shape_hit_spec(s, ray, t_min, b2) is None,
{
    match s {
        Shape::Sphere(sp) => crate::sphere::lemma_sphere_hit_shrink(sp, ray, t_min, b1, b2),
        Shape::Cylinder(cy) => crate::cylinder::lemma_cylinder_hit_shrink(cy, ray, t_min, b1, b2),
    }
}

proof fn lemma_world_fold_no_nearer(
    objs: Seq<Shape>,
    i: int,
    ray: Ray,
    t_min: i64,
    closest: i64,
    best: Option<HitRecord>,
)
    requires
        0 <= i,
        best matches Some(hb) ==> hb.t <= closest,
    ensures
        match world_hit_from_spec(objs, i, ray, t_min, closest, best) {
            None => true,
            Some(h) => h.t <= closest && forall|k: int|
                i <= k < objs.len() ==> (#[trigger] shape_hit_spec(objs[k], ray, t_min, h.t))
                    is None,
        },
    decreases objs.len() - i,
{
    if i < objs.len() {
        match shape_hit_spec(objs[i], ray, t_min, closest) {
            Some(hi) => {
                lemma_shape_hit_interval(objs[i], ray, t_min, closest);
                lemma_world_fold_no_nearer(objs, i + 1, ray, t_min, hi.t, Some(hi));
                match world_hit_from_spec(objs, i + 1, ray, t_min, hi.t, Some(hi)) {
                    Some(h) => {
                        lemma_shape_hit_shrink(objs[i], ray, t_min, closest, h.t);
                    },
                    None => {},
                }
            },
            None => {
                lemma_world_fold_no_nearer(objs, i + 1, ray, t_min, closest, best);
                match world_hit_from_spec(objs, i + 1, ray, t_min, closest, best) {
                    Some(h) => {
                        lemma_shape_hit_shrink(objs[i], ray, t_min, closest, h.t);
                    },
                    None => {},
                }
            },
        }
    }
}

/// The scene's aggregate query really returns the closest hit: whenever
/// it reports one, no entity reports an intersection strictly nearer
/// (each queried over the same lower bound, up to the reported hit).
pub proof fn lemma_world_hit_is_nearest(w: World, ray: Ray, t_min: i64, t_max: i64)
    ensures
        match world_hit_spec(w, ray, t_min, t_max) {
            None => true,
            Some(h) => forall|k: int|
                0 <= k < w.objects@.len() ==> (#[trigger] shape_hit_spec(
                    w.objects@[k],
                    ray,
                    t_min,
                    h.t,
                )) is None,
        },
{
    lemma_world_fold_no_nearer(w.objects@, 0, ray, t_min, t_max, None);
}

/// Once a best hit exists, the closest-hit fold can only replace it with
/// a nearer one, never lose it.
proof fn lemma_world_fold_keeps_some(
    objs: Seq<Shape>,
    i: int,
    ray: Ray,
    t_min: i64,
    closest: i64,
    h: HitRecord,
)
    ensures
        world_hit_from_spec(objs, i, ray, t_min, closest, Some(h)) is Some,
    decreases objs.len() - i,
{
    if 0 <= i < objs.len() {
        match shape_hit_spec(objs[i], ray, t_min, closest) {
            Some(h2) => lemma_world_fold_keeps_some(objs, i + 1, ray, t_min, h2.t, h2),
            None => lemma_world_fold_keeps_some(objs, i + 1, ray, t_min, closest, h),
        }
    }
}

proof fn lemma_world_miss_from(objs: Seq<Shape>, i: int, ray: Ray, t_min: i64, t_max: i64)
    requires
        0 <= i,
        world_hit_from_spec(objs, i, ray, t_min, t_max, None) is None,
    ensures
        forall|k: int|
            i <= k < objs.len() ==> (#[trigger] shape_hit_spec(objs[k], ray, t_min, t_max)) is None,
    decreases objs.len() - i,
{
    if i < objs.len() {
        match shape_hit_spec(objs[i], ray, t_min, t_max) {
            Some(h) => {
                lemma_world_fold_keeps_some(objs, i + 1, ray, t_min, h.t, h);
            },
            None => {
                lemma_world_miss_from(objs, i + 1, ray, t_min, t_max);
            },
        }
    }
}

/// When the scene reports no hit, no entity would have reported one on
/// the full interval either: the fold only shrinks the upper bound after
/// an accepted hit, so a miss means every entity was queried with the
/// original bound and missed.
pub proof fn lemma_world_miss_means_every_entity_misses(
    w: World,
    ray: Ray,
    t_min: i64,
    t_max: i64,
)
    requires
        world_hit_spec(w, ray, t_min, t_max) is None,
    ensures
        forall|k: int|
            0 <= k < w.objects@.len() ==> (#[trigger] shape_hit_spec(
                w.objects@[k],
                ray,
                t_min,
                t_max,
            )) is None,
{
    lemma_world_miss_from(w.objects@, 0, ray, t_min, t_max);
}

/// An ordered collection of intersectable entities; immutable once the
/// render loop begins.
#[derive(Clone, Debug)]
pub struct World {
    pub objects: Vec<Shape>,
}

impl World {
    /// An empty scene.
    pub fn new() -> (r: World)
        ensures
            r.objects@.len() == 0,
            world_wf(r),
    {
        World { objects: Vec::new() }
    }

    /// Append an entity to the scene.
    pub fn add(&mut self, s: Shape)
        ensures
            final(self).objects@ == old(self).objects@.push(s),
    {
        self.objects.push(s);
    }

    /// The closest hit of `ray` across the whole scene strictly inside
    /// `(t_min, t_max)`, or `None` if no entity reports a hit.  After each
    /// accepted hit the interval's upper bound shrinks to that hit's `t`,
    /// so no later entity can report a farther intersection; the first
    /// entity encountered wins ties.
    pub fn hit(&self, ray: &Ray, t_min: i64, t_max: i64) -> (r: Option<HitRecord>)
        requires
            world_wf(*self),
        ensures
            r == world_hit_spec(*self, *ray, t_min, t_max),
            r matches Some(h) ==> t_min < h.t < t_max && material_wf(h.material),
            self.objects@.len() == 0 ==> r is None,
    {
        let mut best: Option<HitRecord> = None;
        let mut closest: i64 = t_max;
        let mut i: usize = 0;
        while i < self.objects.len()
            invariant
                0 <= i <= self.objects.len(),
                world_wf(*self),
                world_hit_spec(*self, *ray, t_min, t_max) == world_hit_from_spec(
                    self.objects@,
                    i as int,
                    *ray,
                    t_min,
                    closest,
                    best,
                ),
                best matches Some(h) ==> t_min < h.t < t_max && h.t == closest && material_wf(
                    h.material,
                ),
                best is None ==> closest == t_max,
            decreases self.objects.len() - i,
        {
            let s = &self.objects[i];
            match s.hit(ray, t_min, closest) {
                Some(h) => {
                    closest = h.t;
                    best = Some(h);
                },
                None => {},
            }
            i = i + 1;
        }
        best
    }
}

} // verus!
