//! Ray-sphere intersection and the aggregate closest-hit scan.

use pathtracer::fx::{FX_MAX, FX_ONE};
use pathtracer::hittable::{Hittable, HittableList};
use pathtracer::ray::{near_zero, Ray};
use pathtracer::sphere::{MovingSphere, Sphere};
use pathtracer::vec3::Vec3;

#[test]
fn sphere_head_on_hit_front_face() {
    // Sphere at the origin, radius one; a ray from (0, 0, 2) toward
    // (0, 0, -1) must hit at t = 1 with normal (0, 0, 1), front face.
    let s = Sphere::new(Vec3::new(0, 0, 0), FX_ONE, 0);
    let r = Ray::new(Vec3::new(0, 0, 2 * FX_ONE), Vec3::new(0, 0, -FX_ONE), 0);
    let rec = s.hit(&r, 66, FX_MAX).expect("head-on ray must hit");
    assert_eq!(rec.t, FX_ONE);
    assert_eq!(rec.normal, Vec3::new(0, 0, FX_ONE));
    assert_eq!(rec.point, Vec3::new(0, 0, FX_ONE));
    assert!(rec.front_face);
}

#[test]
fn sphere_hit_from_inside_flips_normal() {
    // A ray starting at the centre pointing outward exits through the far
    // side: not front-facing, and the normal is flipped to oppose the ray.
    let s = Sphere::new(Vec3::new(0, 0, 0), FX_ONE, 0);
    let r = Ray::new(Vec3::new(0, 0, 0), Vec3::new(0, 0, FX_ONE), 0);
    let rec = s.hit(&r, 66, FX_MAX).expect("ray from inside must exit");
    assert_eq!(rec.t, FX_ONE);
    assert!(!rec.front_face);
    assert_eq!(rec.normal, Vec3::new(0, 0, -FX_ONE));
}

#[test]
fn sphere_miss_for_all_ranges() {
    // Perpendicular offset of two exceeds the radius of one: no hit for
    // any query interval.
    let s = Sphere::new(Vec3::new(0, 0, 0), FX_ONE, 0);
    let r = Ray::new(Vec3::new(0, 2 * FX_ONE, 2 * FX_ONE), Vec3::new(0, 0, -FX_ONE), 0);
    assert!(s.hit(&r, 66, FX_MAX).is_none());
    assert!(s.hit(&r, 0, FX_MAX).is_none());
    assert!(s.hit(&r, -10 * FX_ONE, 10 * FX_ONE).is_none());
    assert!(s.hit(&r, FX_ONE, 3 * FX_ONE).is_none());
}

#[test]
fn sphere_respects_interval() {
    let s = Sphere::new(Vec3::new(0, 0, 0), FX_ONE, 0);
    let r = Ray::new(Vec3::new(0, 0, 2 * FX_ONE), Vec3::new(0, 0, -FX_ONE), 0);
    // The near root t = 1 is excluded; the far root t = 3 is found.
    let rec = s.hit(&r, 2 * FX_ONE, FX_MAX).expect("far root inside interval");
    assert_eq!(rec.t, 3 * FX_ONE);
    assert!(!rec.front_face);
    // Both roots excluded: no hit.
    assert!(s.hit(&r, 4 * FX_ONE, FX_MAX).is_none());
    assert!(s.hit(&r, 66, FX_ONE).is_none());
}

#[test]
fn sphere_new_clamps_negative_radius() {
    let s = Sphere::new(Vec3::new(0, 0, 0), -5 * FX_ONE, 3);
    assert_eq!(s.radius, 0);
    assert_eq!(s.material, 3);
}

#[test]
fn aggregate_returns_closest_regardless_of_order() {
    // Two overlapping spheres along one ray: the first is hit at t = 1,
    // the second at t = 2; either insertion order returns t = 1.
    let near = Hittable::Sphere(Sphere::new(Vec3::new(0, 0, -2 * FX_ONE), FX_ONE, 0));
    let far = Hittable::Sphere(Sphere::new(Vec3::new(0, 0, -4 * FX_ONE), 2 * FX_ONE, 1));
    let r = Ray::new(Vec3::new(0, 0, 0), Vec3::new(0, 0, -FX_ONE), 0);

    let mut scene_a = HittableList::new();
    scene_a.add(near);
    scene_a.add(far);
    let rec_a = scene_a.hit(&r, 66, FX_MAX).expect("scene must be hit");

    let mut scene_b = HittableList::new();
    scene_b.add(far);
    scene_b.add(near);
    let rec_b = scene_b.hit(&r, 66, FX_MAX).expect("scene must be hit");

    assert_eq!(rec_a.t, FX_ONE);
    assert_eq!(rec_b.t, FX_ONE);
    assert_eq!(rec_a, rec_b);
    assert_eq!(rec_a.material, 0);
}

#[test]
fn aggregate_empty_and_all_miss() {
    let empty = HittableList::new();
    let r = Ray::new(Vec3::new(0, 0, 0), Vec3::new(0, 0, -FX_ONE), 0);
    assert!(empty.hit(&r, 66, FX_MAX).is_none());

    let mut scene = HittableList::new();
    scene.add(Hittable::Sphere(Sphere::new(Vec3::new(0, 5 * FX_ONE, 0), FX_ONE, 0)));
    assert!(scene.hit(&r, 66, FX_MAX).is_none());
}

#[test]
fn moving_sphere_uses_ray_time() {
    // The centre travels from the origin to (0, 1, 0) over the exposure.
    let ms = MovingSphere::new(Vec3::new(0, 0, 0), Vec3::new(0, FX_ONE, 0), FX_ONE, 0);
    // At time 1/2 the centre sits at (0, 1/2, 0).
    let r_mid = Ray::new(
        Vec3::new(0, FX_ONE / 2, 2 * FX_ONE),
        Vec3::new(0, 0, -FX_ONE),
        FX_ONE / 2,
    );
    let rec = ms.hit(&r_mid, 66, FX_MAX).expect("centred ray must hit");
    assert_eq!(rec.t, FX_ONE);
    assert_eq!(rec.normal, Vec3::new(0, 0, FX_ONE));
    // At time 0 the same ray passes 1/2 above the centre and still hits,
    // but earlier than the head-on hit would.
    let r_start = Ray::new(
        Vec3::new(0, FX_ONE / 2, 2 * FX_ONE),
        Vec3::new(0, 0, -FX_ONE),
        0,
    );
    let rec0 = ms.hit(&r_start, 66, FX_MAX).expect("offset ray still hits");
    assert!(rec0.t > FX_ONE);
}

#[test]
fn near_zero_only_for_exact_zero() {
    assert!(near_zero(&Vec3::new(0, 0, 0)));
    assert!(!near_zero(&Vec3::new(1, 0, 0)));
    assert!(!near_zero(&Vec3::new(0, 0, -1)));
}

#[test]
fn ray_at_walks_the_ray() {
    let r = Ray::new(Vec3::new(FX_ONE, 0, 0), Vec3::new(0, 2 * FX_ONE, 0), 0);
    assert_eq!(r.at(FX_ONE / 2), Vec3::new(FX_ONE, FX_ONE, 0));
    assert_eq!(r.at(0), Vec3::new(FX_ONE, 0, 0));
}
