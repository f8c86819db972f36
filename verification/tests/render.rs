//! Scenario tests for the camera: configuration, quantization, and
//! end-to-end renders.

use rt::camera::{quant, Camera};
use rt::cylinder::Cylinder;
use rt::fixed::SCALE;
use rt::material::Material;
use rt::sphere::Sphere;
use rt::vec3::Vec3;
use rt::world::{Shape, World};

const ONE: i64 = SCALE;
const HALF_ONE: i64 = SCALE / 2;

#[test]
fn builder_derives_height_from_aspect_ratio() {
    let cam = Camera::init().image_width(400).aspect_ratio(116508).build();
    // 400 / (16 / 9) = 225.
    assert_eq!(cam.image_width, 400);
    assert_eq!(cam.image_height, 225);
    let square = Camera::init().image_width(64).aspect_ratio(ONE).build();
    assert_eq!(square.image_height, 64);
    // A height that would round to nothing is still one row.
    let sliver = Camera::init().image_width(1).aspect_ratio(8 * ONE).build();
    assert_eq!(sliver.image_height, 1);
}

#[test]
fn quantization_clamps_gamma_corrects_and_scales() {
    assert_eq!(quant(0), 0);
    assert_eq!(quant(-ONE), 0);
    assert_eq!(quant(ONE), 255);
    assert_eq!(quant(10 * ONE), 255);
    // sqrt(0.25) = 0.5, and 0.5 * 255 truncates to 127.
    assert_eq!(quant(ONE / 4), 127);
}

fn test_camera(width: u32, samples: u32, depth: u32) -> Camera {
    Camera::init()
        .image_width(width)
        .aspect_ratio(ONE)
        .look_from(Vec3::new(0, 0, 0))
        .look_at(Vec3::new(0, 0, -ONE))
        .samples_per_pixel(samples)
        .max_depth(depth)
        .build()
}

#[test]
fn empty_world_renders_the_background_gradient_smoothly() {
    let cam = test_camera(32, 1, 4);
    let w = World::new();
    let buf = cam.render(&w);
    assert_eq!(buf.len(), 3 * 32 * 32);
    // The gradient runs top to bottom: rows get no bluer downward in the
    // green channel, and neighbours never jump.
    for x in 0..32usize {
        for y in 1..32usize {
            let above = buf[3 * ((y - 1) * 32 + x) + 1] as i32;
            let here = buf[3 * (y * 32 + x) + 1] as i32;
            assert!(here >= above - 2, "gradient jumps at column {x} row {y}");
            assert!((here - above).abs() < 8, "discontinuity at column {x} row {y}");
        }
    }
}

#[test]
fn one_sphere_scene_darkens_the_center_and_leaves_corners_background() {
    // One sphere, center (0, 0, -1), radius 0.5, grey diffuse; the camera
    // at the origin looks straight at it.
    let mut w = World::new();
    w.add(Shape::Sphere(Sphere {
        center: Vec3::new(0, 0, -ONE),
        radius: HALF_ONE,
        material: Material::Lambertian { albedo: Vec3::new(HALF_ONE, HALF_ONE, HALF_ONE) },
    }));
    let cam = test_camera(100, 1, 4);
    assert_eq!(cam.image_height, 100);

    let with_sphere = cam.render(&w);
    let empty = cam.render(&World::new());
    assert_eq!(with_sphere.len(), 3 * 100 * 100);
    assert_eq!(empty.len(), 3 * 100 * 100);

    let px = |buf: &Vec<u8>, x: usize, y: usize| -> [u8; 3] {
        let i = 3 * (y * 100 + x);
        [buf[i], buf[i + 1], buf[i + 2]]
    };

    // The center pixel's ray strikes the sphere: its color differs
    // measurably from the background gradient value for that direction.
    let center_scene = px(&with_sphere, 50, 50);
    let center_bg = px(&empty, 50, 50);
    let diff: i32 = (0..3).map(|k| (center_scene[k] as i32 - center_bg[k] as i32).abs()).sum();
    assert!(diff > 20, "center differs only by {diff}");

    // A corner pixel's grazing ray misses the sphere: both renders trace
    // the identical ray through the identical background, byte for byte.
    for (x, y) in [(0usize, 0usize), (99, 0), (0, 99), (99, 99)] {
        assert_eq!(px(&with_sphere, x, y), px(&empty, x, y), "corner ({x}, {y})");
    }
}

#[test]
fn scene_with_a_cylinder_renders_and_differs_from_empty() {
    let mut w = World::new();
    w.add(Shape::Cylinder(Cylinder {
        center: Vec3::new(0, -HALF_ONE, -2 * ONE),
        height: ONE,
        radius: HALF_ONE,
        material: Material::Lambertian { albedo: Vec3::new(HALF_ONE, HALF_ONE, HALF_ONE) },
        translation: Vec3::new(0, 0, 0),
        rot_cos: ONE,
        rot_sin: 0,
    }));
    let cam = test_camera(32, 1, 4);
    let with_cyl = cam.render(&w);
    let empty = cam.render(&World::new());
    assert_eq!(with_cyl.len(), empty.len());
    assert_ne!(with_cyl, empty, "the cylinder must show up in the image");
}

#[test]
fn renders_are_reproducible() {
    let mut w = World::new();
    w.add(Shape::Sphere(Sphere {
        center: Vec3::new(0, 0, -ONE),
        radius: HALF_ONE,
        material: Material::Metal { albedo: Vec3::new(ONE, ONE, ONE), fuzz: HALF_ONE / 2 },
    }));
    let cam = test_camera(16, 4, 6);
    assert_eq!(cam.render(&w), cam.render(&w));
}
