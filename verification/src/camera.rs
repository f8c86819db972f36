//! The camera: render configuration, per-pixel sampling, and the
//! recursive trace, written as a loop carrying an accumulated attenuation
//! and a remaining-depth counter.

use vstd::prelude::*;
use crate::fixed::{
    fadd, fadd_spec, fclamp, fclamp_spec, fdiv, fdiv_spec, fmul, fmul_spec, fsqrt, fsqrt_spec,
    fsub, fsub_spec, HALF, SCALE,
};
use crate::material::{scatter_spec, scatter_state_spec};
use crate::ray::Ray;
use crate::rng::{rng_draw_spec, rng_next_spec, Rng};
use crate::vec3::{
    cross_spec, len_sq_spec, lemma_vmul_white, unit_spec, vadd_spec, vdivs_spec, vmul_spec,
    vneg_spec, vscale_spec, vsub_spec, Vec3,
};
use crate::world::{world_hit_spec, world_wf, World};

verus! {

/// The lower ray-parameter bound used while tracing: a small positive
/// offset that discards self-intersections at the origin of a scattered
/// ray.
pub const T_MIN: i64 = 64;

/// The upper ray-parameter bound used while tracing: no far clip, so the
/// whole representable range counts.
pub const T_FAR: i64 = 9223372036854775807;

/// The background gradient: white blended toward a sky blue by the unit
/// direction's height.  This is the only source of color when nothing is
/// struck.  A degenerate (zero-length) direction sees plain white.
pub open spec fn background_spec(r: Ray) -> Vec3 {
    if len_sq_spec(r.direction) == 0 {
        Vec3 { x: SCALE, y: SCALE, z: SCALE }
    } else {
        let u = unit_spec(r.direction);
        let t = fmul_spec(HALF, fadd_spec(u.y, SCALE));
        vadd_spec(
            vscale_spec(fsub_spec(SCALE, t), Vec3 { x: SCALE, y: SCALE, z: SCALE }),
            vscale_spec(t, Vec3 { x: 32768i64, y: 45875i64, z: 65536i64 }),
        )
    }
}

/// The trace fold from a current ray, remaining depth, generator state and
/// accumulated attenuation: black at depth zero; the attenuated background
/// when nothing is struck; black on absorption; otherwise one more bounce
/// with the attenuation multiplied in.  Returns the color and the
/// generator state after the trace.
pub open spec fn trace_from_spec(ray: Ray, w: World, depth: u32, s: u64, acc: Vec3) -> (Vec3, u64)
    decreases depth,
{
    if depth == 0 {
        (Vec3 { x: 0i64, y: 0i64, z: 0i64 }, s)
    } else {
        match world_hit_spec(w, ray, T_MIN, T_FAR) {
            None => (vmul_spec(acc, background_spec(ray)), s),
            Some(h) => match scatter_spec(h.material, ray, h, s) {
                None => (Vec3 { x: 0i64, y: 0i64, z: 0i64 }, scatter_state_spec(h.material, s)),
                Some(ar) => trace_from_spec(
                    ar.1,
                    w,
                    (depth - 1) as u32,
                    scatter_state_spec(h.material, s),
                    vmul_spec(acc, ar.0),
                ),
            },
        }
    }
}

/// What `trace` returns: the fold above started with a white (identity)
/// attenuation.
pub open spec fn trace_spec(ray: Ray, w: World, depth: u32, s: u64) -> (Vec3, u64) {
    trace_from_spec(ray, w, depth, s, Vec3 { x: SCALE, y: SCALE, z: SCALE })
}

/// The background gradient for one ray.
pub fn background(r: &Ray) -> (c: Vec3)
    ensures
        c == background_spec(*r),
{
    let lsq = r.direction.length_squared();
    if lsq == 0 {
        Vec3::new(SCALE, SCALE, SCALE)
    } else {
        let u = r.direction.unit();
        let t = fmul(HALF, fadd(u.y, SCALE));
        Vec3::new(SCALE, SCALE, SCALE).scale(fsub(SCALE, t)).add(
            Vec3::new(32768, 45875, 65536).scale(t),
        )
    }
}

/// Trace one ray through the scene: find the nearest hit, scatter at it,
/// multiply the attenuation in, and continue with the outgoing ray until
/// absorption, a miss, or depth exhaustion.  Depth zero returns black for
/// every ray and every world (the sole depth-exhaustion policy, not an
/// error); through an empty world every ray sees exactly the background
/// gradient.
#[verifier::rlimit(100)]
pub fn trace(ray: &Ray, world: &World, depth: u32, rng: &mut Rng) -> (c: Vec3)
    requires
        world_wf(*world),
    ensures
        c == trace_spec(*ray, *world, depth, old(rng).state).0,
        final(rng).state == trace_spec(*ray, *world, depth, old(rng).state).1,
        depth == 0 ==> c == (Vec3 { x: 0i64, y: 0i64, z: 0i64 }),
        world.objects@.len() == 0 && depth > 0 ==> c == background_spec(*ray),
{
    let mut cur: Ray = *ray;
    let mut acc: Vec3 = Vec3::new(SCALE, SCALE, SCALE);
    let mut d: u32 = depth;
    proof {
        if world.objects@.len() == 0 && depth > 0 {
            lemma_vmul_white(background_spec(*ray));
        }
    }
    loop
        invariant
            world_wf(*world),
            trace_spec(*ray, *world, depth, old(rng).state) == trace_from_spec(
                cur,
                *world,
                d,
                rng.state,
                acc,
            ),
        decreases d,
    {
        if d == 0 {
            return Vec3::new(0, 0, 0);
        }
        match world.hit(&cur, T_MIN, T_FAR) {
            None => {
                let bg = background(&cur);
                return acc.mul(bg);
            },
            Some(h) => {
                match h.material.scatter(&cur, &h, rng) {
                    None => {
                        return Vec3::new(0, 0, 0);
                    },
                    Some((att, out)) => {
                        acc = acc.mul(att);
                        cur = out;
                        d = d - 1;
                    },
                }
            },
        }
    }
}

/// Whenever the scene reports no hit for a ray (in particular through an
/// empty world), tracing it at any positive depth yields exactly the
/// background gradient: the white starting attenuation multiplies away.
pub proof fn lemma_trace_miss_is_background(ray: Ray, w: World, depth: u32, s: u64)
    requires
        world_hit_spec(w, ray, T_MIN, T_FAR) is None,
        depth > 0,
    ensures
        trace_spec(ray, w, depth, s).0 == background_spec(ray),
        trace_spec(ray, w, depth, s).1 == s,
{
    lemma_vmul_white(background_spec(ray));
}

/// The render configuration and derived viewport geometry: image size,
/// sampling and recursion limits, the eye position, and the location and
/// spacing of pixel centers on the viewport.
#[derive(Clone, Copy, PartialEq, Eq, Structural, Debug)]
pub struct Camera {
    pub image_width: u32,
    pub image_height: u32,
    pub samples_per_pixel: u32,
    pub max_depth: u32,
    pub center: Vec3,
    pub pixel00_loc: Vec3,
    pub pixel_delta_u: Vec3,
    pub pixel_delta_v: Vec3,
}

/// The user-facing render configuration collected before `build` derives
/// the viewport geometry.
#[derive(Clone, Copy, PartialEq, Eq, Structural, Debug)]
pub struct CameraBuilder {
    pub image_width: u32,
    pub aspect_ratio: i64,
    pub look_from: Vec3,
    pub look_at: Vec3,
    pub samples_per_pixel: u32,
    pub max_depth: u32,
}

/// What `build` asks of a configuration: at least one pixel of width, a
/// positive aspect ratio, at least one sample per pixel.
pub open spec fn builder_wf(b: CameraBuilder) -> bool {
    b.image_width >= 1 && b.aspect_ratio > 0 && b.samples_per_pixel >= 1
}

/// A pixel count as a fixed-point scalar.
pub open spec fn int2fx_spec(n: u32) -> i64 {
    ((n as int) * (SCALE as int)) as i64
}

/// A pixel count as a fixed-point scalar.
pub fn int2fx(n: u32) -> (r: i64)
    ensures
        r == int2fx_spec(n),
        n >= 1 ==> r >= SCALE,
{
    (n as i64) * 65536
}

/// The image height derived from width and aspect ratio, kept within the
/// pixel-count range (at least one row).
pub open spec fn image_height_spec(b: CameraBuilder) -> u32 {
    let h = ((b.image_width as int) * (SCALE as int)) / (b.aspect_ratio as int);
    if h < 1 {
        1u32
    } else if h > 0xffffffff {
        0xffffffffu32
    } else {
        h as u32
    }
}

/// The camera `build` derives from a configuration: height from the
/// aspect ratio; an orthonormal-within-rounding basis aimed from
/// `look_from` toward `look_at` (with fixed fallback axes when the two
/// coincide or the view is straight up); a viewport two units tall at
/// focal distance one, divided into pixel steps; and the center of the
/// top-left pixel.
pub open spec fn build_spec(b: CameraBuilder) -> Camera {
    let image_height = image_height_spec(b);
    let w_dir = vsub_spec(b.look_from, b.look_at);
    let w_basis = if len_sq_spec(w_dir) == 0 {
        Vec3 { x: 0i64, y: 0i64, z: SCALE }
    } else {
        unit_spec(w_dir)
    };
    let up = Vec3 { x: 0i64, y: SCALE, z: 0i64 };
    let u_cross = cross_spec(up, w_basis);
    let u_basis = if len_sq_spec(u_cross) == 0 {
        Vec3 { x: SCALE, y: 0i64, z: 0i64 }
    } else {
        unit_spec(u_cross)
    };
    let v_basis = cross_spec(w_basis, u_basis);
    let aspect_actual = fdiv_spec(int2fx_spec(b.image_width), int2fx_spec(image_height));
    let viewport_width = fmul_spec(131072i64, aspect_actual);
    let viewport_u = vscale_spec(viewport_width, u_basis);
    let viewport_v = vscale_spec(131072i64, vneg_spec(v_basis));
    let pixel_delta_u = vdivs_spec(viewport_u, int2fx_spec(b.image_width));
    let pixel_delta_v = vdivs_spec(viewport_v, int2fx_spec(image_height));
    let upper_left = vsub_spec(
        vsub_spec(
            vsub_spec(b.look_from, vscale_spec(SCALE, w_basis)),
            vdivs_spec(viewport_u, 131072i64),
        ),
        vdivs_spec(viewport_v, 131072i64),
    );
    let pixel00_loc = vadd_spec(
        upper_left,
        vscale_spec(HALF, vadd_spec(pixel_delta_u, pixel_delta_v)),
    );
    Camera {
        image_width: b.image_width,
        image_height,
        samples_per_pixel: b.samples_per_pixel,
        max_depth: b.max_depth,
        center: b.look_from,
        pixel00_loc,
        pixel_delta_u,
        pixel_delta_v,
    }
}

impl Camera {
    /// Start a configuration from the fixed fallback view: a 400-pixel
    /// wide 16:9 image seen from (13, 2, 3) toward the origin.
    pub fn init() -> (b: CameraBuilder)
        ensures
            b == (CameraBuilder {
                image_width: 400u32,
                aspect_ratio: 116508i64,
                look_from: Vec3 { x: 851968i64, y: 131072i64, z: 196608i64 },
                look_at: Vec3 { x: 0i64, y: 0i64, z: 0i64 },
                samples_per_pixel: 10u32,
                max_depth: 10u32,
            }),
            builder_wf(b),
    {
        CameraBuilder {
            image_width: 400,
            aspect_ratio: 116508,
            look_from: Vec3 { x: 851968, y: 131072, z: 196608 },
            look_at: Vec3 { x: 0, y: 0, z: 0 },
            samples_per_pixel: 10,
            max_depth: 10,
        }
    }
}

impl CameraBuilder {
    /// Set the image width in pixels.
    pub fn image_width(self, w: u32) -> (r: CameraBuilder)
        requires
            w >= 1,
        ensures
            r == (CameraBuilder { image_width: w, ..self }),
    {
        CameraBuilder { image_width: w, ..self }
    }

    /// Set the width-to-height ratio, as a fixed-point scalar.
    pub fn aspect_ratio(self, a: i64) -> (r: CameraBuilder)
        requires
            a > 0,
        ensures
            r == (CameraBuilder { aspect_ratio: a, ..self }),
    {
        CameraBuilder { aspect_ratio: a, ..self }
    }

    /// Set the eye position.
    pub fn look_from(self, v: Vec3) -> (r: CameraBuilder)
        ensures
            r == (CameraBuilder { look_from: v, ..self }),
    {
        CameraBuilder { look_from: v, ..self }
    }

    /// Set the point the camera aims at.
    pub fn look_at(self, v: Vec3) -> (r: CameraBuilder)
        ensures
            r == (CameraBuilder { look_at: v, ..self }),
    {
        CameraBuilder { look_at: v, ..self }
    }

    /// Set how many jittered samples each pixel averages.
    pub fn samples_per_pixel(self, n: u32) -> (r: CameraBuilder)
        requires
            n >= 1,
        ensures
            r == (CameraBuilder { samples_per_pixel: n, ..self }),
    {
        CameraBuilder { samples_per_pixel: n, ..self }
    }

    /// Set the recursion depth limit.
    pub fn max_depth(self, d: u32) -> (r: CameraBuilder)
        ensures
            r == (CameraBuilder { max_depth: d, ..self }),
    {
        CameraBuilder { max_depth: d, ..self }
    }

    /// Derive the camera from this configuration.
    pub fn build(self) -> (c: Camera)
        requires
            builder_wf(self),
        ensures
            c == build_spec(self),
            c.image_width >= 1 && c.image_height >= 1 && c.samples_per_pixel >= 1,
    {
        let h64: u64 = ((self.image_width as u64) * 65536) / (self.aspect_ratio as u64);
        let image_height: u32 = if h64 < 1 {
            1
        } else if h64 > 4294967295 {
            4294967295
        } else {
            h64 as u32
        };
        let w_dir = self.look_from.sub(self.look_at);
        let w_basis = if w_dir.length_squared() == 0 {
            Vec3::new(0, 0, SCALE)
        } else {
            w_dir.unit()
        };
        let up = Vec3::new(0, SCALE, 0);
        let u_cross = up.cross(w_basis);
        let u_basis = if u_cross.length_squared() == 0 {
            Vec3::new(SCALE, 0, 0)
        } else {
            u_cross.unit()
        };
        let v_basis = w_basis.cross(u_basis);
        let aspect_actual = fdiv(int2fx(self.image_width), int2fx(image_height));
        let viewport_width = fmul(131072, aspect_actual);
        let viewport_u = u_basis.scale(viewport_width);
        let viewport_v = v_basis.neg().scale(131072);
        let pixel_delta_u = viewport_u.div_scalar(int2fx(self.image_width));
        let pixel_delta_v = viewport_v.div_scalar(int2fx(image_height));
        let upper_left = self.look_from.sub(w_basis.scale(SCALE)).sub(
            viewport_u.div_scalar(131072),
        ).sub(viewport_v.div_scalar(131072));
        let pixel00_loc = upper_left.add(pixel_delta_u.add(pixel_delta_v).scale(HALF));
        Camera {
            image_width: self.image_width,
            image_height,
            samples_per_pixel: self.samples_per_pixel,
            max_depth: self.max_depth,
            center: self.look_from,
            pixel00_loc,
            pixel_delta_u,
            pixel_delta_v,
        }
    }
}

/// The primary ray for pixel `(i, j)` drawn from state `s`: aimed at the
/// pixel's center jittered by up to half a pixel step in each direction.
pub open spec fn get_ray_spec(cam: Camera, i: u32, j: u32, s: u64) -> Ray {
    let ox = rng_draw_spec(s, HALF);
    let oy = rng_draw_spec(rng_next_spec(s), HALF);
    let sample = vadd_spec(
        vadd_spec(
            cam.pixel00_loc,
            vscale_spec(fadd_spec(int2fx_spec(i), ox), cam.pixel_delta_u),
        ),
        vscale_spec(fadd_spec(int2fx_spec(j), oy), cam.pixel_delta_v),
    );
    Ray { origin: cam.center, direction: vsub_spec(sample, cam.center) }
}

/// The per-pixel generator seed: the pixel coordinates packed into one
/// word (forced odd by `Rng::seed`), so every pixel's samples are
/// reproducible and independent of every other pixel's.
pub open spec fn pixel_seed_spec(i: u32, j: u32) -> u64 {
    (((j as u64) << 32) | (i as u64)) | 1
}

/// The sample fold: draw `n` jittered rays for pixel `(i, j)`, trace each,
/// and sum the colors into `acc`, threading the generator state.
pub open spec fn sample_acc_spec(
    cam: Camera,
    w: World,
    i: u32,
    j: u32,
    n: u32,
    s: u64,
    acc: Vec3,
) -> (Vec3, u64)
    decreases n,
{
    if n == 0 {
        (acc, s)
    } else {
        let r = get_ray_spec(cam, i, j, s);
        let s1 = rng_next_spec(rng_next_spec(s));
        let cr = trace_spec(r, w, cam.max_depth, s1);
        sample_acc_spec(cam, w, i, j, (n - 1) as u32, cr.1, vadd_spec(acc, cr.0))
    }
}

/// The color of pixel `(i, j)`: the average of its traced samples.
pub open spec fn pixel_avg_spec(cam: Camera, w: World, i: u32, j: u32) -> Vec3 {
    let sum = sample_acc_spec(
        cam,
        w,
        i,
        j,
        cam.samples_per_pixel,
        pixel_seed_spec(i, j),
        Vec3 { x: 0i64, y: 0i64, z: 0i64 },
    ).0;
    vdivs_spec(sum, int2fx_spec(cam.samples_per_pixel))
}

/// One color channel quantized for display: clamped to `[0, 1]`,
/// gamma-corrected (gamma 2: the square root), scaled to a byte.
pub open spec fn quant_spec(c: i64) -> u8 {
    (((fsqrt_spec(fclamp_spec(c, 0, SCALE)) as int) * 255) / 65536) as u8
}

/// The three bytes of pixel `(i, j)` in the output buffer.
pub open spec fn pixel_bytes_spec(cam: Camera, w: World, i: u32, j: u32) -> Seq<u8> {
    let avg = pixel_avg_spec(cam, w, i, j);
    seq![quant_spec(avg.x), quant_spec(avg.y), quant_spec(avg.z)]
}

/// The buffer bytes of all pixels before pixel `(i, j)` in row-major
/// order: `j` full rows and then `i` pixels of row `j`.
pub open spec fn render_upto_spec(cam: Camera, w: World, j: int, i: int) -> Seq<u8>
    decreases j, i,
{
    if j < 0 || i < 0 {
        Seq::empty()
    } else if i == 0 {
        if j == 0 {
            Seq::empty()
        } else {
            render_upto_spec(cam, w, j - 1, cam.image_width as int)
        }
    } else {
        render_upto_spec(cam, w, j, i - 1) + pixel_bytes_spec(cam, w, (i - 1) as u32, j as u32)
    }
}

/// What `render` returns: the whole row-major RGB byte buffer.
pub open spec fn render_spec(cam: Camera, w: World) -> Seq<u8> {
    render_upto_spec(cam, w, cam.image_height as int, 0)
}

proof fn lemma_render_upto_len(cam: Camera, w: World, j: int, i: int)
    requires
        0 <= j,
        0 <= i,
    ensures
        render_upto_spec(cam, w, j, i).len() == 3 * (j * (cam.image_width as int)) + 3 * i,
    decreases j, i,
{
    let wd = cam.image_width as int;
    if i == 0 {
        if j == 0 {
            assert(render_upto_spec(cam, w, 0, 0).len() == 0);
            assert(3 * (0 * wd) == 0) by (nonlinear_arith);
        } else {
            lemma_render_upto_len(cam, w, j - 1, wd);
            assert(render_upto_spec(cam, w, j, 0) == render_upto_spec(cam, w, j - 1, wd));
            assert(3 * ((j - 1) * wd) + 3 * wd == 3 * (j * wd)) by (nonlinear_arith);
        }
    } else {
        lemma_render_upto_len(cam, w, j, i - 1);
        assert(pixel_bytes_spec(cam, w, (i - 1) as u32, j as u32).len() == 3);
        assert(render_upto_spec(cam, w, j, i) == render_upto_spec(cam, w, j, i - 1)
            + pixel_bytes_spec(cam, w, (i - 1) as u32, j as u32));
    }
}

/// The rendered buffer holds exactly three bytes per pixel in row-major
/// order: `3 * image_height * image_width` in all.
pub proof fn lemma_render_len(cam: Camera, w: World)
    ensures
        render_spec(cam, w).len() == 3 * ((cam.image_height as int) * (cam.image_width as int)),
{
    lemma_render_upto_len(cam, w, cam.image_height as int, 0);
}

/// One color channel quantized for display.
pub fn quant(c: i64) -> (b: u8)
    ensures
        b == quant_spec(c),
{
    let cc = fclamp(c, 0, SCALE);
    let g = fsqrt(cc);
    proof {
        assert(g <= 65536) by (nonlinear_arith)
            requires
                (g as int) * (g as int) <= (cc as int) * 65536,
                0 <= cc <= 65536,
                0 <= g,
        ;
    }
    (((g as u64) * 255) / 65536) as u8
}

impl Camera {
    /// The primary ray for pixel `(i, j)`, jittered within the pixel
    /// footprint for anti-aliasing.
    pub fn get_ray(&self, i: u32, j: u32, rng: &mut Rng) -> (r: Ray)
        ensures
            r == get_ray_spec(*self, i, j, old(rng).state),
            final(rng).state == rng_next_spec(rng_next_spec(old(rng).state)),
    {
        let ox = rng.draw(HALF);
        let oy = rng.draw(HALF);
        let sample = self.pixel00_loc.add(
            self.pixel_delta_u.scale(fadd(int2fx(i), ox)),
        ).add(self.pixel_delta_v.scale(fadd(int2fx(j), oy)));
        Ray::new(self.center, sample.sub(self.center))
    }

    /// Render the scene into a row-major RGB byte buffer of
    /// `image_width * image_height` pixels: for each pixel, average
    /// `samples_per_pixel` jittered traces, gamma-correct, and quantize.
    #[verifier::rlimit(100)]
    pub fn render(&self, world: &World) -> (buf: Vec<u8>)
        requires
            world_wf(*world),
            self.samples_per_pixel >= 1,
        ensures
            buf@ == render_spec(*self, *world),
            buf@.len() == 3 * ((self.image_height as int) * (self.image_width as int)),
    {
        proof {
            lemma_render_len(*self, *world);
        }
        let mut buf: Vec<u8> = Vec::new();
        let mut j: u32 = 0;
        while j < self.image_height
            invariant
                world_wf(*world),
                self.samples_per_pixel >= 1,
                j <= self.image_height,
                buf@ == render_upto_spec(*self, *world, j as int, 0),
            decreases self.image_height - j,
        {
            let mut i: u32 = 0;
            while i < self.image_width
                invariant
                    world_wf(*world),
                    self.samples_per_pixel >= 1,
                    i <= self.image_width,
                    j < self.image_height,
                    buf@ == render_upto_spec(*self, *world, j as int, i as int),
                decreases self.image_width - i,
            {
                let seed_word = ((j as u64) << 32) | (i as u64);
                let mut prng = Rng::seed(seed_word);
                let mut acc = Vec3::new(0, 0, 0);
                let mut s: u32 = 0;
                while s < self.samples_per_pixel
                    invariant
                        world_wf(*world),
                        s <= self.samples_per_pixel,
                        sample_acc_spec(
                            *self,
                            *world,
                            i,
                            j,
                            self.samples_per_pixel,
                            pixel_seed_spec(i, j),
                            Vec3 { x: 0i64, y: 0i64, z: 0i64 },
                        ) == sample_acc_spec(
                            *self,
                            *world,
                            i,
                            j,
                            (self.samples_per_pixel - s) as u32,
                            prng.state,
                            acc,
                        ),
                    decreases self.samples_per_pixel - s,
                {
                    let r = self.get_ray(i, j, &mut prng);
                    let c = trace(&r, world, self.max_depth, &mut prng);
                    acc = acc.add(c);
                    s = s + 1;
                }
                let avg = acc.div_scalar(int2fx(self.samples_per_pixel));
                let qr = quant(avg.x);
                let qg = quant(avg.y);
                let qb = quant(avg.z);
                buf.push(qr);
                buf.push(qg);
                buf.push(qb);
                proof {
                    assert(buf@ =~= render_upto_spec(*self, *world, j as int, i as int + 1));
                }
                i = i + 1;
            }
            j = j + 1;
        }
        buf
    }
}

} // verus!
