//! Surface materials and their scattering model: a material either absorbs
//! an incoming ray or re-emits an attenuated outgoing ray.

use vstd::prelude::*;
use crate::fixed::{
    abs_spec, fabs, fabs_spec, fadd, fadd_spec, fclamp, fclamp_spec, fdiv, fdiv_spec, fmul,
    fmul_spec, fneg, fneg_spec, fsqrt, fsqrt_spec, fsub, fsub_spec, lemma_fmul_square_nonneg,
    lemma_fmul_zero, tdiv, SCALE,
};
use crate::hittable::HitRecord;
use crate::ray::Ray;
use crate::rng::{rng_draw01_spec, rng_next_spec, rng_unit_vec_spec, rng_unit_vec_state_spec, Rng};
use crate::vec3::{
    dot_spec, len_sq_spec, near_zero_spec, reflect_spec, unit_spec, vadd_spec, vneg_spec,
    vscale_spec, Vec3,
};

verus! {

/// A surface material, one variant per scattering model.
#[derive(Clone, Copy, PartialEq, Eq, Structural, Debug)]
pub enum Material {
    /// Diffuse: scatters about the normal, attenuated by `albedo`.
    Lambertian { albedo: Vec3 },
    /// Mirror with roughness `fuzz`; absorbs rays perturbed into the surface.
    Metal { albedo: Vec3, fuzz: i64 },
    /// Clear refracting material; attenuation is always white.
    Dielectric { index_of_refraction: i64 },
}

/// An RGB reflectance: every channel within `[0, 1]`.
pub open spec fn color_wf(c: Vec3) -> bool {
    0 <= c.x <= SCALE && 0 <= c.y <= SCALE && 0 <= c.z <= SCALE
}

/// The data model's demands on a material's parameters: reflectance
/// channels within `[0, 1]`, `fuzz` within `[0, 1]`, a positive index of
/// refraction.
pub open spec fn material_wf(m: Material) -> bool {
    match m {
        Material::Lambertian { albedo } => color_wf(albedo),
        Material::Metal { albedo, fuzz } => color_wf(albedo) && 0 <= fuzz <= SCALE,
        Material::Dielectric { index_of_refraction } => index_of_refraction > 0,
    }
}

/// Diffuse scatter: the outgoing direction is the stored normal plus a
/// random unit vector, or the normal itself when that sum is near zero.
pub open spec fn lambertian_scatter_spec(albedo: Vec3, rec: HitRecord, s: u64) -> (Vec3, Ray) {
    let d0 = vadd_spec(rec.normal, rng_unit_vec_spec(s));
    let dir = if near_zero_spec(d0) {
        rec.normal
    } else {
        d0
    };
    (albedo, Ray { origin: rec.point, direction: dir })
}

/// Metal scatter: mirror-reflect the incoming unit direction about the
/// stored normal, perturb by `fuzz` times a random unit vector, absorb if
/// the result points into the surface.  A degenerate (zero-length)
/// incoming direction is absorbed.
pub open spec fn metal_scatter_spec(
    albedo: Vec3,
    fuzz: i64,
    ray_in: Ray,
    rec: HitRecord,
    s: u64,
) -> Option<(Vec3, Ray)> {
    if len_sq_spec(ray_in.direction) == 0 {
        None
    } else {
        let reflected = reflect_spec(unit_spec(ray_in.direction), rec.normal);
        let dir = vadd_spec(reflected, vscale_spec(fuzz, rng_unit_vec_spec(s)));
        if dot_spec(dir, rec.normal) > 0 {
            Some((albedo, Ray { origin: rec.point, direction: dir }))
        } else {
            None
        }
    }
}

/// The effective refraction ratio: the reciprocal of the index when the
/// ray enters from outside, the index itself when it exits.
pub open spec fn refraction_ratio_spec(ir: i64, front_face: bool) -> i64 {
    if front_face {
        fdiv_spec(SCALE, ir)
    } else {
        ir
    }
}

/// Schlick's closed-form reflectance estimate at a dielectric interface.
pub open spec fn schlick_spec(cos: i64, ratio: i64) -> i64 {
    let r0t = fdiv_spec(fsub_spec(SCALE, ratio), fadd_spec(SCALE, ratio));
    let r0 = fmul_spec(r0t, r0t);
    let omc = fsub_spec(SCALE, cos);
    let p2 = fmul_spec(omc, omc);
    let p4 = fmul_spec(p2, p2);
    let p5 = fmul_spec(p4, omc);
    fadd_spec(r0, fmul_spec(fsub_spec(SCALE, r0), p5))
}

/// Snell refraction of the unit direction `uv` at normal `n`.
pub open spec fn refract_spec(uv: Vec3, n: Vec3, ratio: i64, cos: i64) -> Vec3 {
    let r_perp = vscale_spec(ratio, vadd_spec(uv, vscale_spec(cos, n)));
    let k = fabs_spec(fsub_spec(SCALE, len_sq_spec(r_perp)));
    vadd_spec(r_perp, vscale_spec(fneg_spec(fsqrt_spec(k)), n))
}

/// The outgoing direction a dielectric chooses: the identity at equal
/// indices (refraction there is exactly a no-op), mirror reflection under
/// total internal reflection or when Schlick reflectance beats the drawn
/// scalar, Snell refraction otherwise.  The cosine is clamped to the valid
/// range `[-1, 1]` against fixed-point rounding.  Opaque: callers reason
/// through `scatter`'s contract instead of unfolding the optics.
#[verifier::opaque]
pub open spec fn dielectric_direction_spec(ir: i64, ray_in: Ray, rec: HitRecord, s: u64) -> Vec3 {
    let ratio = refraction_ratio_spec(ir, rec.front_face);
    let uv = unit_spec(ray_in.direction);
    let cos = fclamp_spec(dot_spec(vneg_spec(uv), rec.normal), (-SCALE) as i64, SCALE);
    let sin = fsqrt_spec(fsub_spec(SCALE, fmul_spec(cos, cos)));
    if ratio == SCALE {
        uv
    } else if fmul_spec(ratio, sin) > SCALE {
        reflect_spec(uv, rec.normal)
    } else if schlick_spec(cos, ratio) > rng_draw01_spec(s) {
        reflect_spec(uv, rec.normal)
    } else {
        refract_spec(uv, rec.normal, ratio, cos)
    }
}

/// Dielectric scatter: always scatters (attenuation is white) unless the
/// incoming direction is degenerate.
pub open spec fn dielectric_scatter_spec(
    ir: i64,
    ray_in: Ray,
    rec: HitRecord,
    s: u64,
) -> Option<(Vec3, Ray)> {
    if len_sq_spec(ray_in.direction) == 0 {
        None
    } else {
        Some(
            (
                Vec3 { x: SCALE, y: SCALE, z: SCALE },
                Ray { origin: rec.point, direction: dielectric_direction_spec(ir, ray_in, rec, s) },
            ),
        )
    }
}

/// What `Material::scatter` returns, per variant, as a function of the
/// generator state at entry.
pub open spec fn scatter_spec(m: Material, ray_in: Ray, rec: HitRecord, s: u64) -> Option<
    (Vec3, Ray),
> {
    match m {
        Material::Lambertian { albedo } => Some(lambertian_scatter_spec(albedo, rec, s)),
        Material::Metal { albedo, fuzz } => metal_scatter_spec(albedo, fuzz, ray_in, rec, s),
        Material::Dielectric { index_of_refraction } => dielectric_scatter_spec(
            index_of_refraction,
            ray_in,
            rec,
            s,
        ),
    }
}

/// The generator state after `Material::scatter`: one unit-vector draw for
/// the diffuse and metal variants, one scalar draw for the dielectric.
pub open spec fn scatter_state_spec(m: Material, s: u64) -> u64 {
    match m {
        Material::Lambertian { .. } => rng_unit_vec_state_spec(s),
        Material::Metal { .. } => rng_unit_vec_state_spec(s),
        Material::Dielectric { .. } => rng_next_spec(s),
    }
}

/// A clamped cosine squares to a value within `[0, 1]`.
proof fn lemma_unit_sq_range(a: i64)
    requires
        -SCALE <= a <= SCALE,
    ensures
        0 <= fmul_spec(a, a) <= SCALE,
{
    lemma_fmul_square_nonneg(a);
    assert(0 <= a * a <= 65536 * 65536) by (nonlinear_arith)
        requires
            -65536 <= a <= 65536,
    ;
    assert(abs_spec(a * a) / 65536 <= 65536) by (nonlinear_arith)
        requires
            0 <= a * a <= 65536 * 65536,
            abs_spec(a * a) == a * a,
    ;
}

/// Snell refraction of the unit direction `uv` at normal `n`.
fn refract(uv: Vec3, n: Vec3, ratio: i64, cos: i64) -> (r: Vec3)
    ensures
        r == refract_spec(uv, n, ratio, cos),
{
    let r_perp = uv.add(n.scale(cos)).scale(ratio);
    let k = fabs(fsub(SCALE, r_perp.length_squared()));
    r_perp.add(n.scale(fneg(fsqrt(k))))
}

/// Schlick's reflectance estimate.
fn schlick(cos: i64, ratio: i64) -> (r: i64)
    requires
        ratio >= 0,
    ensures
        r == schlick_spec(cos, ratio),
{
    let den = fadd(SCALE, ratio);
    let r0t = fdiv(fsub(SCALE, ratio), den);
    let r0 = fmul(r0t, r0t);
    let omc = fsub(SCALE, cos);
    let p2 = fmul(omc, omc);
    let p4 = fmul(p2, p2);
    let p5 = fmul(p4, omc);
    fadd(r0, fmul(fsub(SCALE, r0), p5))
}

impl Material {
    /// Scatter an incoming ray at a hit: either absorb it (`None`) or
    /// re-emit an attenuated outgoing ray from the hit point.
    pub fn scatter(&self, ray_in: &Ray, rec: &HitRecord, rng: &mut Rng) -> (r: Option<(Vec3, Ray)>)
        requires
            material_wf(*self),
        ensures
            r == scatter_spec(*self, *ray_in, *rec, old(rng).state),
            final(rng).state == scatter_state_spec(*self, old(rng).state),
    {
        match self {
            Material::Lambertian { albedo } => {
                let uv = rng.unit_vec();
                let d0 = rec.normal.add(uv);
                let dir = if d0.near_zero() {
                    rec.normal
                } else {
                    d0
                };
                Some((*albedo, Ray::new(rec.point, dir)))
            },
            Material::Metal { albedo, fuzz } => {
                let fv = rng.unit_vec();
                let lsq = ray_in.direction.length_squared();
                if lsq == 0 {
                    return None;
                }
                let reflected = ray_in.direction.unit().reflect(rec.normal);
                let dir = reflected.add(fv.scale(*fuzz));
                if dir.dot(rec.normal) > 0 {
                    Some((*albedo, Ray::new(rec.point, dir)))
                } else {
                    None
                }
            },
            Material::Dielectric { index_of_refraction } => {
                proof {
                    reveal(dielectric_direction_spec);
                }
                let rand = rng.draw01();
                let lsq = ray_in.direction.length_squared();
                if lsq == 0 {
                    return None;
                }
                let ratio = if rec.front_face {
                    fdiv(SCALE, *index_of_refraction)
                } else {
                    *index_of_refraction
                };
                let uv = ray_in.direction.unit();
                let cos = fclamp(uv.neg().dot(rec.normal), -SCALE, SCALE);
                proof {
                    lemma_unit_sq_range(cos);
                }
                let sin = fsqrt(fsub(SCALE, fmul(cos, cos)));
                let dir = if ratio == SCALE {
                    uv
                } else if fmul(ratio, sin) > SCALE {
                    uv.reflect(rec.normal)
                } else {
                    if schlick(cos, ratio) > rand {
                        uv.reflect(rec.normal)
                    } else {
                        refract(uv, rec.normal, ratio, cos)
                    }
                };
                Some((Vec3::new(SCALE, SCALE, SCALE), Ray::new(rec.point, dir)))
            },
        }
    }
}

/// Metal scatter with zero fuzz is an exact mirror: whenever it scatters,
/// the outgoing direction is the geometric reflection of the incoming unit
/// direction about the stored normal, and the attenuation is the albedo.
pub proof fn lemma_metal_zero_fuzz_is_mirror(albedo: Vec3, ray_in: Ray, rec: HitRecord, s: u64)
    ensures
        match scatter_spec(Material::Metal { albedo, fuzz: 0i64 }, ray_in, rec, s) {
            Some(ar) => ar.1.direction == reflect_spec(unit_spec(ray_in.direction), rec.normal)
                && ar.0 == albedo && ar.1.origin == rec.point,
            None => true,
        },
{
    let fv = rng_unit_vec_spec(s);
    lemma_fmul_zero(fv.x);
    lemma_fmul_zero(fv.y);
    lemma_fmul_zero(fv.z);
}

/// A dielectric whose index of refraction is one never bends a ray:
/// whenever the incoming direction is not degenerate, it scatters, the
/// outgoing direction is exactly the incoming unit direction, and the
/// attenuation is white.
pub proof fn lemma_dielectric_unit_index_no_bend(ray_in: Ray, rec: HitRecord, s: u64)
    ensures
        match scatter_spec(
            Material::Dielectric { index_of_refraction: SCALE },
            ray_in,
            rec,
            s,
        ) {
            Some(ar) => ar.1.direction == unit_spec(ray_in.direction) && ar.0 == (Vec3 {
                x: SCALE,
                y: SCALE,
                z: SCALE,
            }) && ar.1.origin == rec.point,
            None => len_sq_spec(ray_in.direction) == 0,
        },
{
    reveal(dielectric_direction_spec);
    assert((SCALE as int) * (SCALE as int) == 4294967296) by (nonlinear_arith)
        requires
            SCALE == 65536,
    ;
    assert(abs_spec(4294967296) == 4294967296);
    assert(abs_spec(SCALE as int) == 65536);
    assert(tdiv((SCALE as int) * (SCALE as int), SCALE as int) == 65536);
    assert(fdiv_spec(SCALE, SCALE) == SCALE);
}

} // verus!
