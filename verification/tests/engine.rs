//! Scenario tests for the geometric and material core: fixed-point
//! arithmetic, intersections, scattering, and the trace laws.

use rt::camera::{background, trace};
use rt::cylinder::Cylinder;
use rt::fixed::{fadd, fdiv, fmul, fsqrt, SCALE};
use rt::material::Material;
use rt::ray::Ray;
use rt::rng::Rng;
use rt::sphere::Sphere;
use rt::vec3::Vec3;
use rt::world::{Shape, World};

const ONE: i64 = SCALE;
const HALF_ONE: i64 = SCALE / 2;

fn fx(v: f64) -> i64 {
    (v * SCALE as f64).round() as i64
}

fn to_f(v: i64) -> f64 {
    v as f64 / SCALE as f64
}

fn grey() -> Material {
    Material::Lambertian { albedo: Vec3::new(HALF_ONE, HALF_ONE, HALF_ONE) }
}

#[test]
fn fixed_point_arithmetic_is_exact_on_the_grid() {
    assert_eq!(fmul(ONE, ONE), ONE);
    assert_eq!(fmul(HALF_ONE, HALF_ONE), SCALE / 4);
    assert_eq!(fmul(0, 12345), 0);
    assert_eq!(fmul(-HALF_ONE, HALF_ONE), -(SCALE / 4));
    assert_eq!(fdiv(ONE, 2 * ONE), HALF_ONE);
    assert_eq!(fdiv(-ONE, 2 * ONE), -HALF_ONE);
    assert_eq!(fsqrt(4 * ONE), 2 * ONE);
    assert_eq!(fsqrt(SCALE / 4), HALF_ONE);
    assert_eq!(fadd(i64::MAX, 1), i64::MAX);
    assert_eq!(fadd(i64::MIN, -1), i64::MIN);
}

#[test]
fn sphere_hit_point_lies_on_surface() {
    let s = Sphere { center: Vec3::new(0, 0, -ONE), radius: HALF_ONE, material: grey() };
    let ray = Ray::new(Vec3::new(0, 0, 0), Vec3::new(0, 0, -ONE));
    let h = s.hit(&ray, 64, i64::MAX).expect("the ray aims at the sphere");
    // The nearer root: t = 0.5, hit point (0, 0, -0.5).
    assert_eq!(h.t, HALF_ONE);
    assert_eq!(h.point.x, 0);
    assert_eq!(h.point.y, 0);
    assert_eq!(h.point.z, -HALF_ONE);
    // |point - center| = radius within the fixed-point grid.
    let d = h.point.sub(s.center);
    let dist = to_f(d.length());
    assert!((dist - to_f(s.radius)).abs() < 1e-3, "distance {dist}");
}

#[test]
fn sphere_hit_point_on_surface_for_oblique_ray() {
    let s = Sphere { center: Vec3::new(0, 0, -2 * ONE), radius: ONE, material: grey() };
    let ray = Ray::new(Vec3::new(0, 0, 0), Vec3::new(fx(0.3), fx(0.2), -ONE));
    let h = s.hit(&ray, 64, i64::MAX).expect("the ray aims near the sphere center");
    let d = h.point.sub(s.center);
    let dist = to_f(d.length());
    assert!((dist - 1.0).abs() < 1e-2, "distance {dist}");
}

#[test]
fn reported_normal_is_unit_and_front_face_matches_sign() {
    let s = Sphere { center: Vec3::new(0, 0, -ONE), radius: HALF_ONE, material: grey() };
    let ray = Ray::new(Vec3::new(0, 0, 0), Vec3::new(0, 0, -ONE));
    let h = s.hit(&ray, 64, i64::MAX).unwrap();
    let len = to_f(h.normal.length());
    assert!((len - 1.0).abs() < 1e-3, "normal length {len}");
    // The ray runs against the outward normal, so it sees the front face.
    assert!(h.front_face);
    assert!(ray.direction.dot(h.normal) < 0);

    // From inside the sphere the same surface is a back face.
    let inside = Ray::new(Vec3::new(0, 0, -ONE), Vec3::new(0, 0, -ONE));
    let hi = s.hit(&inside, 64, i64::MAX).unwrap();
    assert!(!hi.front_face);
    let leni = to_f(hi.normal.length());
    assert!((leni - 1.0).abs() < 1e-3, "normal length {leni}");
}

#[test]
fn sphere_miss_and_degenerate_cases_return_none() {
    let s = Sphere { center: Vec3::new(0, 0, -2 * ONE), radius: HALF_ONE, material: grey() };
    // A ray pointing away misses.
    assert!(s.hit(&Ray::new(Vec3::new(0, 0, 0), Vec3::new(0, 0, ONE)), 64, i64::MAX).is_none());
    // A zero direction is degenerate, not an error.
    assert!(s.hit(&Ray::new(Vec3::new(0, 0, 0), Vec3::new(0, 0, 0)), 64, i64::MAX).is_none());
    // The wall stands at t = 1.5; the interval is strict, so a far bound
    // exactly there rejects the hit and a slightly larger one accepts it.
    let toward = Ray::new(Vec3::new(0, 0, 0), Vec3::new(0, 0, -ONE));
    assert!(s.hit(&toward, 64, 2 * ONE).is_some());
    assert!(s.hit(&toward, 64, ONE + HALF_ONE).is_none());
}

fn plain_cylinder() -> Cylinder {
    Cylinder {
        center: Vec3::new(0, 0, 0),
        height: ONE,
        radius: HALF_ONE,
        material: grey(),
        translation: Vec3::new(0, 0, 0),
        rot_cos: ONE,
        rot_sin: 0,
    }
}

#[test]
fn cylinder_hit_height_stays_within_bounds() {
    let c = plain_cylinder();
    // Aim at the tube halfway up: the local height must lie in [0, height].
    let ray = Ray::new(Vec3::new(-2 * ONE, HALF_ONE, 0), Vec3::new(ONE, 0, 0));
    let h = c.hit(&ray, 64, i64::MAX).expect("the ray crosses the tube");
    assert!(0 <= h.point.y && h.point.y <= c.height);
    assert_eq!(h.point.y, HALF_ONE);
    // t = 1.5: the tube wall at x = -0.5.
    assert_eq!(h.t, ONE + HALF_ONE);
    // Above the clipped height range nothing is hit.
    let over = Ray::new(Vec3::new(-2 * ONE, 2 * ONE, 0), Vec3::new(ONE, 0, 0));
    assert!(c.hit(&over, 64, i64::MAX).is_none());
}

#[test]
fn cylinder_parallel_ray_is_degenerate() {
    let c = plain_cylinder();
    // Straight up the axis: the quadratic's leading coefficient vanishes.
    let ray = Ray::new(Vec3::new(0, -ONE, 0), Vec3::new(0, ONE, 0));
    assert!(c.hit(&ray, 64, i64::MAX).is_none());
}

#[test]
fn cylinder_quarter_turn_rotation_keeps_the_tube_in_place() {
    // The tube is symmetric about its axis, so a quarter turn about the
    // vertical axis must not move the surface.
    let mut c = plain_cylinder();
    c.rot_cos = 0;
    c.rot_sin = ONE;
    let ray = Ray::new(Vec3::new(-2 * ONE, HALF_ONE, 0), Vec3::new(ONE, 0, 0));
    let h = c.hit(&ray, 64, i64::MAX).expect("the rotated tube still stands here");
    assert_eq!(h.t, ONE + HALF_ONE);
    assert!(0 <= h.point.y && h.point.y <= c.height);
    // The world-space hit point stays on the wall facing the ray.
    assert!((to_f(h.point.x) + 0.5).abs() < 1e-3, "x {}", to_f(h.point.x));
    assert_eq!(h.point.y, HALF_ONE);
    assert!(to_f(h.point.z).abs() < 1e-3, "z {}", to_f(h.point.z));
}

#[test]
fn cylinder_rotation_round_trips_for_both_signs() {
    // The tube is symmetric about its axis, so rotating it by any angle
    // of either sign must leave the reported intersection in place: the
    // ray is rotated into the local frame and the hit rotated back out,
    // and the two steps cancel.  (56756, 32768) is a thirty-degree pair
    // on the grid.
    let ray = Ray::new(Vec3::new(-2 * ONE, HALF_ONE, 0), Vec3::new(ONE, 0, 0));
    let plain = plain_cylinder().hit(&ray, 64, i64::MAX).unwrap();
    for (c, s) in [(0, -ONE), (56756, 32768), (56756, -32768)] {
        let mut cyl = plain_cylinder();
        cyl.rot_cos = c;
        cyl.rot_sin = s;
        let h = cyl.hit(&ray, 64, i64::MAX).expect("the rotated tube still stands here");
        assert!((to_f(h.t) - to_f(plain.t)).abs() < 1e-3, "t {} for ({c}, {s})", to_f(h.t));
        assert!((to_f(h.point.x) - to_f(plain.point.x)).abs() < 1e-3, "x for ({c}, {s})");
        assert_eq!(h.point.y, HALF_ONE);
        assert!((to_f(h.point.z) - to_f(plain.point.z)).abs() < 1e-3, "z for ({c}, {s})");
        // The reported normal keeps no vertical part.
        assert_eq!(h.normal.y, 0);
    }
}

#[test]
fn cylinder_translation_moves_the_tube() {
    let mut c = plain_cylinder();
    c.translation = Vec3::new(3 * ONE, 0, 0);
    let miss = Ray::new(Vec3::new(-2 * ONE, HALF_ONE, 0), Vec3::new(ONE, 0, 0));
    let h = c.hit(&miss, 64, i64::MAX).expect("the ray still crosses the moved tube");
    // The wall now stands at x = 2.5.
    assert!((to_f(h.point.x) - 2.5).abs() < 1e-3, "x {}", to_f(h.point.x));
}

#[test]
fn world_returns_the_closest_hit_and_first_wins_ties() {
    let near = Sphere { center: Vec3::new(0, 0, -2 * ONE), radius: HALF_ONE, material: grey() };
    let far = Sphere {
        center: Vec3::new(0, 0, -4 * ONE),
        radius: HALF_ONE,
        material: Material::Metal { albedo: Vec3::new(ONE, ONE, ONE), fuzz: 0 },
    };
    let ray = Ray::new(Vec3::new(0, 0, 0), Vec3::new(0, 0, -ONE));

    let mut w = World::new();
    w.add(Shape::Sphere(far));
    w.add(Shape::Sphere(near));
    let h = w.hit(&ray, 64, i64::MAX).unwrap();
    assert_eq!(h.t, ONE + HALF_ONE);
    assert_eq!(h.material, grey());

    // Two entities at the same distance: the first encountered wins.
    let twin = Sphere { center: near.center, radius: near.radius, material: far.material };
    let mut tie = World::new();
    tie.add(Shape::Sphere(twin));
    tie.add(Shape::Sphere(near));
    let ht = tie.hit(&ray, 64, i64::MAX).unwrap();
    assert_eq!(ht.material, twin.material);

    let empty = World::new();
    assert!(empty.hit(&ray, 64, i64::MAX).is_none());
}

#[test]
fn metal_with_zero_fuzz_is_an_exact_mirror() {
    let m = Material::Metal { albedo: Vec3::new(fx(0.7), fx(0.6), HALF_ONE), fuzz: 0 };
    let sphere = Sphere { center: Vec3::new(0, 0, -2 * ONE), radius: ONE, material: m };
    let ray = Ray::new(Vec3::new(0, 0, 0), Vec3::new(0, 0, -ONE));
    let rec = sphere.hit(&ray, 64, i64::MAX).unwrap();
    // Head-on against the front wall: normal (0, 0, 1).
    assert_eq!(rec.normal, Vec3::new(0, 0, ONE));
    let mut rng = Rng::seed(7);
    let (att, out) = m.scatter(&ray, &rec, &mut rng).expect("a head-on mirror ray scatters");
    // The exact geometric reflection of (0, 0, -1) about (0, 0, 1).
    assert_eq!(out.direction, Vec3::new(0, 0, ONE));
    assert_eq!(out.origin, rec.point);
    assert_eq!(att, Vec3::new(fx(0.7), fx(0.6), HALF_ONE));
}

#[test]
fn metal_absorbs_rays_reflected_into_the_surface() {
    let m = Material::Metal { albedo: Vec3::new(ONE, ONE, ONE), fuzz: 0 };
    let sphere = Sphere { center: Vec3::new(0, 0, -2 * ONE), radius: ONE, material: m };
    let ray = Ray::new(Vec3::new(0, 0, 0), Vec3::new(0, 0, -ONE));
    let mut rec = sphere.hit(&ray, 64, i64::MAX).unwrap();
    // Force a normal pointing along the incoming ray: the reflection then
    // points into the surface and the ray is absorbed.
    rec.normal = Vec3::new(0, 0, -ONE);
    let mut rng = Rng::seed(7);
    assert!(m.scatter(&ray, &rec, &mut rng).is_none());
}

#[test]
fn dielectric_with_unit_index_never_bends_a_ray() {
    let m = Material::Dielectric { index_of_refraction: ONE };
    let sphere = Sphere { center: Vec3::new(0, 0, -2 * ONE), radius: ONE, material: m };
    for dir in [
        Vec3::new(0, 0, -ONE),
        Vec3::new(fx(0.3), fx(-0.2), -ONE),
        Vec3::new(fx(-0.4), fx(0.1), -ONE),
    ] {
        let ray = Ray::new(Vec3::new(0, 0, 0), dir);
        if let Some(rec) = sphere.hit(&ray, 64, i64::MAX) {
            let mut rng = Rng::seed(99);
            let (att, out) = m.scatter(&ray, &rec, &mut rng).expect("a dielectric always scatters");
            assert_eq!(att, Vec3::new(ONE, ONE, ONE));
            assert_eq!(out.direction, dir.unit());
        } else {
            panic!("the ray should hit the sphere");
        }
    }
}

#[test]
fn lambertian_scatters_with_albedo_attenuation() {
    let m = grey();
    let sphere = Sphere { center: Vec3::new(0, 0, -2 * ONE), radius: ONE, material: m };
    let ray = Ray::new(Vec3::new(0, 0, 0), Vec3::new(0, 0, -ONE));
    let rec = sphere.hit(&ray, 64, i64::MAX).unwrap();
    let mut rng = Rng::seed(3);
    let (att, out) = m.scatter(&ray, &rec, &mut rng).expect("diffuse always scatters");
    assert_eq!(att, Vec3::new(HALF_ONE, HALF_ONE, HALF_ONE));
    // The outgoing direction leaves the surface on the normal's side.
    assert!(out.direction.dot(rec.normal) > 0, "diffuse bounce points outward");
    assert_eq!(out.origin, rec.point);
}

#[test]
fn trace_at_depth_zero_is_black_for_any_world() {
    let mut w = World::new();
    w.add(Shape::Sphere(Sphere {
        center: Vec3::new(0, 0, -2 * ONE),
        radius: ONE,
        material: grey(),
    }));
    let ray = Ray::new(Vec3::new(0, 0, 0), Vec3::new(0, 0, -ONE));
    let mut rng = Rng::seed(1);
    assert_eq!(trace(&ray, &w, 0, &mut rng), Vec3::new(0, 0, 0));
}

#[test]
fn trace_through_an_empty_world_is_the_background_gradient() {
    let w = World::new();
    for dir in [Vec3::new(0, 0, -ONE), Vec3::new(fx(0.5), fx(0.5), -ONE), Vec3::new(0, ONE, 0)] {
        let ray = Ray::new(Vec3::new(0, 0, 0), dir);
        let mut rng = Rng::seed(5);
        assert_eq!(trace(&ray, &w, 8, &mut rng), background(&ray));
    }
}

#[test]
fn background_blends_white_toward_sky_blue_with_height() {
    // Straight up: the gradient parameter is 1, the color the sky's.
    let up = background(&Ray::new(Vec3::new(0, 0, 0), Vec3::new(0, ONE, 0)));
    assert_eq!(up, Vec3::new(fx(0.5), fx(0.7), ONE));
    // Straight down: the parameter is 0, the color white.
    let down = background(&Ray::new(Vec3::new(0, 0, 0), Vec3::new(0, -ONE, 0)));
    assert_eq!(down, Vec3::new(ONE, ONE, ONE));
    // Level: halfway between the two.
    let level = background(&Ray::new(Vec3::new(0, 0, 0), Vec3::new(ONE, 0, 0)));
    assert!((to_f(level.y) - 0.85).abs() < 1e-3);
}

#[test]
fn rng_is_deterministic_per_seed() {
    let mut a = Rng::seed(42);
    let mut b = Rng::seed(42);
    let va = a.unit_vec();
    let vb = b.unit_vec();
    assert_eq!(va, vb);
    let len = to_f(va.length());
    assert!((len - 1.0).abs() < 1e-2, "unit draw length {len}");
}
