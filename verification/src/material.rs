//! Material scattering: diffuse (Lambertian), metallic (Metal) and
//! refractive (Dielectric) surfaces.
//!
//! Scattering maps an incoming ray and an intersection to either an
//! outgoing ray together with an attenuation colour, or nothing when the
//! ray is absorbed. The random draws a material makes come from the
//! explicitly threaded stream, so every scatter is specified exactly.

use vstd::prelude::*;
use crate::fx::{fxadd, fxsub, fxmul, fxdiv, fxsqrt, iabs, FX_ONE};
use crate::fx::{fx_add, fx_sub, fx_mul, fx_div, fx_sqrt, fx_min};
use crate::fx::{lemma_fxmul_mono_nonneg, lemma_fxmul_one, lemma_fxdiv_magnitude,
    lemma_fxmul_self_nonneg};
use crate::vec3::{Vec3, v_add, v_neg, v_scale, v_dot, v_unit, v_reflect, v_refract};
use crate::ray::{Ray, is_near_zero, near_zero, random_unit_vec, unit_vec_from, SAMPLE_TRIES};
use crate::rng::{Rng, rng_next_state, rng_output, fx_unit_of};
use crate::hittable::HitRecord;

verus! {

/// A diffuse surface that scatters into the hemisphere around the normal.
#[derive(Clone, Copy, Debug, PartialEq, Eq, Structural)]
pub struct Lambertian {
    pub albedo: Vec3,
}

/// A reflective surface with a fuzz radius in `[0, FX_ONE]`.
#[derive(Clone, Copy, Debug, PartialEq, Eq, Structural)]
pub struct Metal {
    pub albedo: Vec3,
    pub fuzz: i64,
}

/// A clear refractive surface with the given refractive index.
#[derive(Clone, Copy, Debug, PartialEq, Eq, Structural)]
pub struct Dielectric {
    pub refract_idx: i64,
}

/// A surface material: one of the closed family of scattering behaviours.
#[derive(Clone, Copy, Debug, PartialEq, Eq, Structural)]
pub enum Material {
    Lambertian(Lambertian),
    Metal(Metal),
    Dielectric(Dielectric),
}

/// Diffuse scattering: the normal plus a random unit vector, falling back
/// to the normal itself when that sum rounds to zero. Always scatters;
/// attenuation is the albedo.
pub open spec fn lambertian_scatter_spec(albedo: Vec3, ray_in: Ray, rec: HitRecord, s: u64) -> (
    Option<(Ray, Vec3)>,
    u64,
) {
    let drawn = unit_vec_from(s, SAMPLE_TRIES as nat);
    let d0 = v_add(rec.normal, drawn.0);
    let direction = if is_near_zero(d0) {
        rec.normal
    } else {
        d0
    };
    (Some((Ray { origin: rec.point, direction, time: ray_in.time }, albedo)), drawn.1)
}

/// Metallic scattering: the mirror reflection, normalized, perturbed by
/// `fuzz` times a random unit vector. Absorbed when the perturbed
/// direction points into the surface; otherwise attenuation is the albedo.
pub open spec fn metal_scatter_spec(
    albedo: Vec3,
    fuzz: i64,
    ray_in: Ray,
    rec: HitRecord,
    s: u64,
) -> (Option<(Ray, Vec3)>, u64) {
    let drawn = unit_vec_from(s, SAMPLE_TRIES as nat);
    let reflected = v_add(
        v_unit(v_reflect(ray_in.direction, rec.normal)),
        v_scale(fuzz, drawn.0),
    );
    if v_dot(reflected, rec.normal) > 0 {
        (Some((Ray { origin: rec.point, direction: reflected, time: ray_in.time }, albedo)), drawn.1)
    } else {
        (None, drawn.1)
    }
}

/// The Schlick base reflectance at head-on incidence,
/// `((1 - n) / (1 + n))^2`.
pub open spec fn schlick_r0(ref_idx: i64) -> i64 {
    let q = fxdiv(fxsub(FX_ONE, ref_idx), fxadd(FX_ONE, ref_idx));
    fxmul(q, q)
}

/// The fifth power, multiplied out left to right.
pub open spec fn pow5(x: i64) -> i64 {
    fxmul(fxmul(fxmul(fxmul(x, x), x), x), x)
}

/// The Schlick approximation of Fresnel reflectance,
/// `r0 + (1 - r0) (1 - cos)^5`.
pub open spec fn reflectance_spec(cosine: i64, ref_idx: i64) -> i64 {
    let r0 = schlick_r0(ref_idx);
    fxadd(r0, fxmul(fxsub(FX_ONE, r0), pow5(fxsub(FX_ONE, cosine))))
}

/// Dielectric scattering: refract by Snell's law, except reflect on total
/// internal reflection or with probability given by the Schlick
/// reflectance. Always scatters; attenuation is the identity colour.
pub open spec fn dielectric_scatter_spec(refract_idx: i64, ray_in: Ray, rec: HitRecord, s: u64) -> (
    Option<(Ray, Vec3)>,
    u64,
) {
    let ri = if rec.front_face {
        fxdiv(FX_ONE, refract_idx)
    } else {
        refract_idx
    };
    let unit_dir = v_unit(ray_in.direction);
    let cos_theta = {
        let d = v_dot(rec.normal, v_neg(unit_dir));
        if d <= FX_ONE {
            d
        } else {
            FX_ONE
        }
    };
    let sin_theta = fxsqrt(fxsub(FX_ONE, fxmul(cos_theta, cos_theta)));
    let cannot_refract = fxmul(ri, sin_theta) > FX_ONE;
    let draw = fx_unit_of(rng_output(s));
    let direction = if cannot_refract || reflectance_spec(cos_theta, ri) > draw {
        v_reflect(unit_dir, rec.normal)
    } else {
        v_refract(unit_dir, rec.normal, ri)
    };
    (
        Some(
            (
                Ray { origin: rec.point, direction, time: ray_in.time },
                Vec3 { x: FX_ONE, y: FX_ONE, z: FX_ONE },
            ),
        ),
        rng_next_state(s),
    )
}

/// Scattering for any material, dispatched over the closed family.
pub open spec fn material_scatter_spec(m: Material, ray_in: Ray, rec: HitRecord, s: u64) -> (
    Option<(Ray, Vec3)>,
    u64,
) {
    match m {
        Material::Lambertian(l) => lambertian_scatter_spec(l.albedo, ray_in, rec, s),
        Material::Metal(mt) => metal_scatter_spec(mt.albedo, mt.fuzz, ray_in, rec, s),
        Material::Dielectric(d) => dielectric_scatter_spec(d.refract_idx, ray_in, rec, s),
    }
}

impl Lambertian {
    /// A diffuse material with the given albedo.
    pub fn new(albedo: Vec3) -> (m: Lambertian)
        ensures
            m.albedo == albedo,
    {
        Lambertian { albedo }
    }

    /// Diffuse scattering (see [`lambertian_scatter_spec`]); the ray is
    /// never absorbed.
    pub fn scatter(&self, ray_in: &Ray, rec: &HitRecord, rng: &mut Rng) -> (res: Option<(Ray, Vec3)>)
        ensures
            ({
                let expected = lambertian_scatter_spec(self.albedo, *ray_in, *rec, old(rng).state);
                res == expected.0 && final(rng).state == expected.1
            }),
            res is Some,
    {
        let u = random_unit_vec(rng);
        let d0 = rec.normal.plus(&u);
        let direction = if near_zero(&d0) {
            rec.normal
        } else {
            d0
        };
        Some((Ray::new(rec.point, direction, ray_in.time), self.albedo))
    }
}

impl Metal {
    /// A metallic material with the given albedo; fuzz is clamped into
    /// `[0, FX_ONE]`.
    pub fn new(albedo: Vec3, fuzz: i64) -> (m: Metal)
        ensures
            m.albedo == albedo,
            m.fuzz == crate::fx::fxclamp(fuzz, 0, FX_ONE),
    {
        Metal { albedo, fuzz: crate::fx::fx_clamp(fuzz, 0, FX_ONE) }
    }

    /// Metallic scattering (see [`metal_scatter_spec`]).
    pub fn scatter(&self, ray_in: &Ray, rec: &HitRecord, rng: &mut Rng) -> (res: Option<(Ray, Vec3)>)
        ensures
            ({
                let expected = metal_scatter_spec(
                    self.albedo,
                    self.fuzz,
                    *ray_in,
                    *rec,
                    old(rng).state,
                );
                res == expected.0 && final(rng).state == expected.1
            }),
    {
        let u = random_unit_vec(rng);
        let reflected = ray_in.direction.reflected(&rec.normal).normalized().plus(&u.scaled(self.fuzz));
        let scattered = Ray::new(rec.point, reflected, ray_in.time);

        if scattered.direction.dot(&rec.normal) > 0 {
            Some((scattered, self.albedo))
        } else {
            None
        }
    }
}

impl Dielectric {
    /// A refractive material with the given index.
    pub fn new(refract_idx: i64) -> (m: Dielectric)
        ensures
            m.refract_idx == refract_idx,
    {
        Dielectric { refract_idx }
    }

    /// The Schlick reflectance approximation (see [`reflectance_spec`]).
    pub fn reflectance(cosine: i64, ref_idx: i64) -> (r: i64)
        ensures
            r == reflectance_spec(cosine, ref_idx),
    {
        let q = fx_div(fx_sub(FX_ONE, ref_idx), fx_add(FX_ONE, ref_idx));
        let r0 = fx_mul(q, q);
        let omc = fx_sub(FX_ONE, cosine);
        let p2 = fx_mul(omc, omc);
        let p3 = fx_mul(p2, omc);
        let p4 = fx_mul(p3, omc);
        let p5 = fx_mul(p4, omc);
        fx_add(r0, fx_mul(fx_sub(FX_ONE, r0), p5))
    }

    /// Refractive scattering (see [`dielectric_scatter_spec`]); the ray is
    /// never absorbed.
    pub fn scatter(&self, ray_in: &Ray, rec: &HitRecord, rng: &mut Rng) -> (res: Option<(Ray, Vec3)>)
        ensures
            ({
                let expected = dielectric_scatter_spec(
                    self.refract_idx,
                    *ray_in,
                    *rec,
                    old(rng).state,
                );
                res == expected.0 && final(rng).state == expected.1
            }),
            res is Some,
    {
        let ri = if rec.front_face {
            fx_div(FX_ONE, self.refract_idx)
        } else {
            self.refract_idx
        };

        let unit_dir = ray_in.direction.normalized();
        let cos_theta = fx_min(rec.normal.dot(&unit_dir.negated()), FX_ONE);
        let sin_theta = fx_sqrt(fx_sub(FX_ONE, fx_mul(cos_theta, cos_theta)));
        let cannot_refract = fx_mul(ri, sin_theta) > FX_ONE;

        let draw = rng.next_fx_unit();
        let direction = if cannot_refract || Dielectric::reflectance(cos_theta, ri) > draw {
            unit_dir.reflected(&rec.normal)
        } else {
            unit_dir.refracted(&rec.normal, ri)
        };

        Some((Ray::new(rec.point, direction, ray_in.time), Vec3::one()))
    }
}

impl Material {
    /// Scattering for any material (see [`material_scatter_spec`]).
    pub fn scatter(&self, ray_in: &Ray, rec: &HitRecord, rng: &mut Rng) -> (res: Option<(Ray, Vec3)>)
        ensures
            ({
                let expected = material_scatter_spec(*self, *ray_in, *rec, old(rng).state);
                res == expected.0 && final(rng).state == expected.1
            }),
    {
        match self {
            Material::Lambertian(l) => l.scatter(ray_in, rec, rng),
            Material::Metal(mt) => mt.scatter(ray_in, rec, rng),
            Material::Dielectric(d) => d.scatter(ray_in, rec, rng),
        }
    }
}

/// Scattering conserves energy: a Lambertian or Metal surface attenuates
/// exactly by its albedo, so for an energy-preserving albedo (every channel
/// within `[0, FX_ONE]`) no channel of the attenuation exceeds one; a
/// Dielectric attenuates by exactly the identity colour.
pub proof fn lemma_material_energy_conservation(m: Material, ray_in: Ray, rec: HitRecord, s: u64)
    requires
        match m {
            Material::Lambertian(l) => 0 <= l.albedo.x <= FX_ONE && 0 <= l.albedo.y <= FX_ONE && 0
                <= l.albedo.z <= FX_ONE,
            Material::Metal(mt) => 0 <= mt.albedo.x <= FX_ONE && 0 <= mt.albedo.y <= FX_ONE && 0
                <= mt.albedo.z <= FX_ONE,
            Material::Dielectric(_) => true,
        },
    ensures
        match material_scatter_spec(m, ray_in, rec, s).0 {
            Some(pair) => {
                &&& 0 <= pair.1.x <= FX_ONE
                &&& 0 <= pair.1.y <= FX_ONE
                &&& 0 <= pair.1.z <= FX_ONE
                &&& (m is Dielectric ==> pair.1 == (Vec3 { x: FX_ONE, y: FX_ONE, z: FX_ONE }))
            },
            None => true,
        },
{
}

/// The fifth power is monotone on `[0, FX_ONE]` and stays within it.
proof fn lemma_pow5_mono(x1: i64, x2: i64)
    requires
        0 <= x1 <= x2 <= FX_ONE,
    ensures
        0 <= pow5(x1) <= pow5(x2),
        pow5(x2) <= FX_ONE,
{
    lemma_fxmul_mono_nonneg(x1, x2, x1, x2);
    lemma_fxmul_mono_nonneg(x2, FX_ONE, x2, FX_ONE);
    lemma_fxmul_one(FX_ONE);
    let a1 = fxmul(x1, x1);
    let a2 = fxmul(x2, x2);
    lemma_fxmul_mono_nonneg(a1, a2, x1, x2);
    lemma_fxmul_mono_nonneg(a2, FX_ONE, x2, FX_ONE);
    lemma_fxmul_one(FX_ONE);
    let b1 = fxmul(a1, x1);
    let b2 = fxmul(a2, x2);
    lemma_fxmul_mono_nonneg(b1, b2, x1, x2);
    lemma_fxmul_mono_nonneg(b2, FX_ONE, x2, FX_ONE);
    let c1 = fxmul(b1, x1);
    let c2 = fxmul(b2, x2);
    lemma_fxmul_mono_nonneg(c1, c2, x1, x2);
    lemma_fxmul_mono_nonneg(c2, FX_ONE, x2, FX_ONE);
}

/// The Schlick base reflectance lies within `[0, FX_ONE]` for any
/// non-negative refractive index.
proof fn lemma_schlick_r0_range(ref_idx: i64)
    requires
        0 <= ref_idx,
    ensures
        0 <= schlick_r0(ref_idx) <= FX_ONE,
{
    let num = fxsub(FX_ONE, ref_idx);
    let den = fxadd(FX_ONE, ref_idx);
    assert(den > 0 && iabs(num as int) <= den as int);
    lemma_fxdiv_magnitude(num, den);
    let q = fxdiv(num, den);
    lemma_fxmul_self_nonneg(q);
    assert((q as int) * (q as int) <= (FX_ONE as int) * (FX_ONE as int)) by (nonlinear_arith)
        requires
            -FX_ONE <= q <= FX_ONE;
    assert(iabs((q as int) * (q as int)) == (q as int) * (q as int)) by (nonlinear_arith);
    vstd::arithmetic::div_mod::lemma_div_is_ordered(
        (q as int) * (q as int),
        (FX_ONE as int) * (FX_ONE as int),
        FX_ONE as int,
    );
}

/// Schlick reflectance is anti-monotone in the incidence cosine on
/// `[0, FX_ONE]` — grazing angles reflect at least as much — and equals the
/// base reflectance exactly at head-on incidence.
pub proof fn lemma_reflectance_monotone(c1: i64, c2: i64, ref_idx: i64)
    requires
        0 <= c1 <= c2 <= FX_ONE,
        0 <= ref_idx,
    ensures
        reflectance_spec(c2, ref_idx) <= reflectance_spec(c1, ref_idx),
        reflectance_spec(FX_ONE, ref_idx) == schlick_r0(ref_idx),
{
    lemma_schlick_r0_range(ref_idx);
    let r0 = schlick_r0(ref_idx);
    let omr = fxsub(FX_ONE, r0);
    let o1 = fxsub(FX_ONE, c1);
    let o2 = fxsub(FX_ONE, c2);
    lemma_pow5_mono(o2, o1);
    lemma_fxmul_mono_nonneg(omr, omr, pow5(o2), pow5(o1));
    vstd::arithmetic::div_mod::lemma_div_of0(FX_ONE as int);
    assert(fxmul(0, 0) == 0);
    assert(pow5(0) == 0);
    assert(fxmul(omr, 0) == 0);
}

} // verus!
