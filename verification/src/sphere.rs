//! Sphere geometry: the stationary sphere, the linearly moving sphere, and
//! the quadratic ray-intersection test both share.

use vstd::prelude::*;
use crate::fx::{fxadd, fxsub, fxmul, fxdiv, fxsqrt, lemma_fxsqrt_bounds, lemma_fxdiv_mono};
use crate::fx::{fx_add, fx_sub, fx_mul, fx_div, fx_sqrt};
use crate::vec3::{Vec3, v_sub, v_dot, v_mag_sq, v_neg, v_div_scalar, lemma_v_mag_sq_nonneg};
use crate::ray::{Ray, ray_at};
use crate::hittable::HitRecord;

verus! {

/// Orient an outward geometric normal against the incoming ray: the hit is
/// front-facing when the ray arrives from outside (negative dot product),
/// and the normal is flipped otherwise so that it always opposes the ray.
pub open spec fn face_normal(r: Ray, out_norm: Vec3) -> (bool, Vec3) {
    let front = v_dot(r.direction, out_norm) < 0;
    (front, if front { out_norm } else { v_neg(out_norm) })
}

/// The intersection record for a sphere of the given centre, radius and
/// material handle, hit by `ray` at parameter `root`.
pub open spec fn sphere_record(
    centre: Vec3,
    radius: i64,
    material: usize,
    ray: Ray,
    root: i64,
) -> HitRecord {
    let p = ray_at(ray, root);
    let out_norm = v_div_scalar(v_sub(p, centre), radius);
    let oriented = face_normal(ray, out_norm);
    HitRecord { point: p, normal: oriented.1, t: root, front_face: oriented.0, material }
}

/// The half-discriminant of the intersection quadratic
/// `a t^2 - 2 h t + c = 0`: negative exactly when the ray passes farther
/// from the centre than the radius.
pub open spec fn sphere_disc(centre: Vec3, radius: i64, ray: Ray) -> i64 {
    let oc = v_sub(centre, ray.origin);
    let a = v_mag_sq(ray.direction);
    let h = v_dot(ray.direction, oc);
    let c = fxsub(v_mag_sq(oc), fxmul(radius, radius));
    fxsub(fxmul(h, h), fxmul(a, c))
}

/// The ray-sphere intersection test, in the half-discriminant form
/// `a t^2 - 2 h t + c = 0`. A negative discriminant means no hit; otherwise
/// the smaller root is preferred and the larger tried second, and a root
/// qualifies only strictly inside `(t_min, t_max)`. A direction whose
/// squared magnitude rounds to zero is degenerate and reports no hit.
pub open spec fn sphere_hit_spec(
    centre: Vec3,
    radius: i64,
    material: usize,
    ray: Ray,
    t_min: i64,
    t_max: i64,
) -> Option<HitRecord> {
    let oc = v_sub(centre, ray.origin);
    let a = v_mag_sq(ray.direction);
    let h = v_dot(ray.direction, oc);
    let disc = sphere_disc(centre, radius, ray);
    if a == 0 || disc < 0 {
        None
    } else {
        let sq = fxsqrt(disc);
        let root1 = fxdiv(fxsub(h, sq), a);
        if t_min < root1 && root1 < t_max {
            Some(sphere_record(centre, radius, material, ray, root1))
        } else {
            let root2 = fxdiv(fxadd(h, sq), a);
            if t_min < root2 && root2 < t_max {
                Some(sphere_record(centre, radius, material, ray, root2))
            } else {
                None
            }
        }
    }
}

/// A ray that misses the sphere's bounding distance — the discriminant of
/// the intersection quadratic is negative — hits nothing, whatever the
/// query interval.
pub proof fn lemma_sphere_miss(centre: Vec3, radius: i64, material: usize, ray: Ray)
    requires
        sphere_disc(centre, radius, ray) < 0,
    ensures
        forall|t_min: i64, t_max: i64|
            #[trigger] sphere_hit_spec(centre, radius, material, ray, t_min, t_max) is None,
{
}

/// A hit record's parameter always lies strictly inside the query interval,
/// and carries the sphere's material handle.
pub proof fn lemma_sphere_hit_in_range(
    centre: Vec3,
    radius: i64,
    material: usize,
    ray: Ray,
    t_min: i64,
    t_max: i64,
)
    ensures
        match sphere_hit_spec(centre, radius, material, ray, t_min, t_max) {
            Some(rec) => t_min < rec.t < t_max && rec.material == material,
            None => true,
        },
{
}

/// A hit record's normal always opposes the incoming ray: the front-face
/// flag records whether the geometric outward normal — the contact point
/// less the centre, over the radius — already opposed it, and otherwise
/// the normal is its negation.
pub proof fn lemma_sphere_hit_normal_opposes(
    centre: Vec3,
    radius: i64,
    material: usize,
    ray: Ray,
    t_min: i64,
    t_max: i64,
)
    ensures
        match sphere_hit_spec(centre, radius, material, ray, t_min, t_max) {
            Some(rec) => {
                let out_norm = v_div_scalar(v_sub(rec.point, centre), radius);
                &&& v_dot(ray.direction, rec.normal) <= 0
                &&& rec.front_face == (v_dot(ray.direction, out_norm) < 0)
                &&& rec.normal == if rec.front_face {
                    out_norm
                } else {
                    v_neg(out_norm)
                }
            },
            None => true,
        },
{
    let res = sphere_hit_spec(centre, radius, material, ray, t_min, t_max);
    if res is Some {
        let rec = res->Some_0;
        let out_norm = v_div_scalar(v_sub(rec.point, centre), radius);
        assert(-crate::fx::FX_MAX <= out_norm.x && -crate::fx::FX_MAX <= out_norm.y
            && -crate::fx::FX_MAX <= out_norm.z);
        if !(v_dot(ray.direction, out_norm) < 0) {
            crate::vec3::lemma_v_dot_neg(ray.direction, out_norm);
        }
    }
}

/// Shrinking the far end of the query interval filters the result: a hit
/// closer than the new bound is unchanged, any other hit disappears. This
/// is what lets the aggregate narrow `t_max` to the closest hit found so
/// far without losing the true minimum.
pub proof fn lemma_sphere_hit_narrow(
    centre: Vec3,
    radius: i64,
    material: usize,
    ray: Ray,
    t_min: i64,
    t1: i64,
    t2: i64,
)
    requires
        t1 <= t2,
    ensures
        sphere_hit_spec(centre, radius, material, ray, t_min, t1) == match sphere_hit_spec(
            centre,
            radius,
            material,
            ray,
            t_min,
            t2,
        ) {
            Some(rec) => if rec.t < t1 {
                Some(rec)
            } else {
                None::<HitRecord>
            },
            None => None::<HitRecord>,
        },
{
    let oc = v_sub(centre, ray.origin);
    let a = v_mag_sq(ray.direction);
    let h = v_dot(ray.direction, oc);
    let disc = sphere_disc(centre, radius, ray);
    if a != 0 && disc >= 0 {
        lemma_v_mag_sq_nonneg(ray.direction);
        lemma_fxsqrt_bounds(disc);
        let sq = fxsqrt(disc);
        lemma_fxdiv_mono(fxsub(h, sq), fxadd(h, sq), a);
    }
}

/// A stationary sphere.
#[derive(Clone, Copy, Debug, PartialEq, Eq, Structural)]
pub struct Sphere {
    pub centre: Vec3,
    pub radius: i64,
    pub material: usize,
}

impl Sphere {
    /// A sphere from its centre, radius and material handle; a negative
    /// radius is clamped to zero.
    pub fn new(centre: Vec3, radius: i64, material: usize) -> (s: Sphere)
        ensures
            s.centre == centre,
            s.radius == if radius >= 0 { radius } else { 0i64 },
            s.material == material,
    {
        Sphere { centre, radius: if radius >= 0 { radius } else { 0 }, material }
    }

    /// Orient an outward normal against the incoming ray (see
    /// [`face_normal`]).
    pub fn get_face_normal(r: &Ray, out_norm: Vec3) -> (oriented: (bool, Vec3))
        ensures
            oriented == face_normal(*r, out_norm),
    {
        let front_face = r.direction.dot(&out_norm) < 0;
        let normal = if front_face { out_norm } else { out_norm.negated() };
        (front_face, normal)
    }

    /// The closest intersection of `ray` with this sphere strictly inside
    /// `(t_min, t_max)`, if any.
    pub fn hit(&self, ray: &Ray, t_min: i64, t_max: i64) -> (res: Option<HitRecord>)
        ensures
            res == sphere_hit_spec(self.centre, self.radius, self.material, *ray, t_min, t_max),
    {
        hit_with_centre(self.centre, self.radius, self.material, ray, t_min, t_max)
    }
}

/// A sphere whose centre moves linearly over the exposure: the trajectory
/// is stored as a ray whose origin is the centre at time zero and whose
/// direction reaches the centre at time one.
#[derive(Clone, Copy, Debug, PartialEq, Eq, Structural)]
pub struct MovingSphere {
    pub centre: Ray,
    pub radius: i64,
    pub material: usize,
}

impl MovingSphere {
    /// A moving sphere from its two endpoint centres, radius and material
    /// handle; a negative radius is clamped to zero.
    pub fn new(centre_0: Vec3, centre_1: Vec3, radius: i64, material: usize) -> (s: MovingSphere)
        ensures
            s.centre == (Ray { origin: centre_0, direction: v_sub(centre_1, centre_0), time: 0i64 }),
            s.radius == if radius >= 0 { radius } else { 0i64 },
            s.material == material,
    {
        MovingSphere {
            centre: Ray::new(centre_0, centre_1.minus(&centre_0), 0),
            radius: if radius >= 0 { radius } else { 0 },
            material,
        }
    }

    /// The closest intersection of `ray` with this sphere strictly inside
    /// `(t_min, t_max)`, testing against the centre interpolated at the
    /// ray's time.
    pub fn hit(&self, ray: &Ray, t_min: i64, t_max: i64) -> (res: Option<HitRecord>)
        ensures
            res == sphere_hit_spec(
                ray_at(self.centre, ray.time),
                self.radius,
                self.material,
                *ray,
                t_min,
                t_max,
            ),
    {
        let curr_centre = self.centre.at(ray.time);
        hit_with_centre(curr_centre, self.radius, self.material, ray, t_min, t_max)
    }
}

/// The quadratic intersection test shared by both sphere kinds.
fn hit_with_centre(
    centre: Vec3,
    radius: i64,
    material: usize,
    ray: &Ray,
    t_min: i64,
    t_max: i64,
) -> (res: Option<HitRecord>)
    ensures
        res == sphere_hit_spec(centre, radius, material, *ray, t_min, t_max),
{
    let oc = centre.minus(&ray.origin);
    let a = ray.direction.mag_sq();
    let h = ray.direction.dot(&oc);
    let c = fx_sub(oc.mag_sq(), fx_mul(radius, radius));

    let disc = fx_sub(fx_mul(h, h), fx_mul(a, c));
    if a == 0 || disc < 0 {
        return None;
    }

    let disc_sqrt = fx_sqrt(disc);
    let mut root = fx_div(fx_sub(h, disc_sqrt), a);
    if !(t_min < root && root < t_max) {
        root = fx_div(fx_add(h, disc_sqrt), a);
        if !(t_min < root && root < t_max) {
            return None;
        }
    }

    let p = ray.at(root);
    let out_norm = p.minus(&centre).div_scalar(radius);
    let (front_face, normal) = Sphere::get_face_normal(ray, out_norm);

    Some(HitRecord { point: p, normal, t: root, front_face, material })
}

} // verus!
