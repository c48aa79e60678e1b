//! Material scattering and reflectance behaviour.

use pathtracer::fx::FX_ONE;
use pathtracer::hittable::HitRecord;
use pathtracer::material::{Dielectric, Lambertian, Material, Metal};
use pathtracer::ray::Ray;
use pathtracer::rng::Rng;
use pathtracer::vec3::Vec3;

fn head_on_record() -> HitRecord {
    HitRecord {
        point: Vec3 { x: 0, y: 0, z: 0 },
        normal: Vec3 { x: 0, y: 0, z: FX_ONE },
        t: FX_ONE,
        front_face: true,
        material: 0,
    }
}

#[test]
fn lambertian_always_scatters_with_albedo_attenuation() {
    let albedo = Vec3::new(FX_ONE / 2, FX_ONE / 4, FX_ONE / 8);
    let mat = Lambertian::new(albedo);
    let ray_in = Ray::new(Vec3::new(0, 0, 2 * FX_ONE), Vec3::new(0, 0, -FX_ONE), 77);
    let rec = head_on_record();
    for seed in 0..32u64 {
        let mut rng = Rng::seeded(seed);
        let (scattered, attenuation) = mat.scatter(&ray_in, &rec, &mut rng).expect(
            "diffuse scatter never absorbs",
        );
        assert_eq!(attenuation, albedo);
        assert_eq!(scattered.origin, rec.point);
        assert_eq!(scattered.time, 77);
        // The direction is the normal plus a roughly unit vector, so its
        // component along the normal is bounded below.
        assert!(scattered.direction.dot(&rec.normal) >= -FX_ONE);
    }
}

#[test]
fn metal_mirror_reflection_with_zero_fuzz() {
    let albedo = Vec3::new(FX_ONE, FX_ONE / 2, FX_ONE / 2);
    let mat = Metal::new(albedo, 0);
    let ray_in = Ray::new(Vec3::new(0, 0, 2 * FX_ONE), Vec3::new(0, 0, -FX_ONE), 0);
    let rec = head_on_record();
    let mut rng = Rng::seeded(1);
    let (scattered, attenuation) = mat.scatter(&ray_in, &rec, &mut rng).expect(
        "head-on reflection leaves the surface",
    );
    assert_eq!(attenuation, albedo);
    assert_eq!(scattered.direction, Vec3::new(0, 0, FX_ONE));
}

#[test]
fn metal_new_clamps_fuzz() {
    assert_eq!(Metal::new(Vec3::new(0, 0, 0), 3 * FX_ONE).fuzz, FX_ONE);
    assert_eq!(Metal::new(Vec3::new(0, 0, 0), -FX_ONE).fuzz, 0);
    assert_eq!(Metal::new(Vec3::new(0, 0, 0), FX_ONE / 2).fuzz, FX_ONE / 2);
}

#[test]
fn metal_absorbs_grazing_scatter() {
    // Full fuzz can push a grazing reflection below the surface; with a
    // tangent incoming ray the reflection equals the incoming direction,
    // and a downward fuzz draw gives absorption for some seeds.
    let mat = Metal::new(Vec3::new(FX_ONE, FX_ONE, FX_ONE), FX_ONE);
    let ray_in = Ray::new(Vec3::new(0, 0, FX_ONE), Vec3::new(FX_ONE, 0, 0), 0);
    let rec = head_on_record();
    let mut absorbed = 0u32;
    for seed in 0..64u64 {
        let mut rng = Rng::seeded(seed);
        if mat.scatter(&ray_in, &rec, &mut rng).is_none() {
            absorbed += 1;
        }
    }
    assert!(absorbed > 0);
}

#[test]
fn dielectric_attenuation_is_identity() {
    let mat = Dielectric::new(3 * FX_ONE / 2);
    let ray_in = Ray::new(Vec3::new(0, 0, 2 * FX_ONE), Vec3::new(0, 0, -FX_ONE), 5);
    let rec = head_on_record();
    for seed in 0..32u64 {
        let mut rng = Rng::seeded(seed);
        let (scattered, attenuation) = mat.scatter(&ray_in, &rec, &mut rng).expect(
            "dielectric never absorbs",
        );
        assert_eq!(attenuation, Vec3::new(FX_ONE, FX_ONE, FX_ONE));
        assert_eq!(scattered.time, 5);
    }
}

#[test]
fn material_enum_dispatches() {
    let ray_in = Ray::new(Vec3::new(0, 0, 2 * FX_ONE), Vec3::new(0, 0, -FX_ONE), 0);
    let rec = head_on_record();
    let albedo = Vec3::new(FX_ONE / 2, FX_ONE / 2, FX_ONE / 2);
    let mut rng_a = Rng::seeded(9);
    let mut rng_b = Rng::seeded(9);
    let direct = Lambertian::new(albedo).scatter(&ray_in, &rec, &mut rng_a);
    let via_enum = Material::Lambertian(Lambertian::new(albedo)).scatter(&ray_in, &rec, &mut rng_b);
    assert_eq!(direct, via_enum);
}

#[test]
fn reflectance_equals_r0_head_on() {
    // For index 1.5: r0 = ((1 - 1.5) / (1 + 1.5))^2 = 0.04, which the
    // 16.16 arithmetic computes as 2621 (0.039993...).
    let idx = 3 * FX_ONE / 2;
    assert_eq!(Dielectric::reflectance(FX_ONE, idx), 2621);
}

#[test]
fn reflectance_grows_toward_grazing() {
    let idx = 3 * FX_ONE / 2;
    let head_on = Dielectric::reflectance(FX_ONE, idx);
    let mid = Dielectric::reflectance(FX_ONE / 2, idx);
    let grazing = Dielectric::reflectance(0, idx);
    assert!(head_on <= mid);
    assert!(mid <= grazing);
    // At grazing incidence everything reflects: r0 + (1 - r0) = 1.
    assert_eq!(grazing, FX_ONE);
    // Spot checks along the way stay monotone.
    let mut prev = grazing;
    for cos in (0..=16).map(|k| k * (FX_ONE / 16)) {
        let r = Dielectric::reflectance(cos, idx);
        assert!(r <= prev);
        prev = r;
    }
}
