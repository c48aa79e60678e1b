//! The scene graph: hit records, the closed family of hittable objects,
//! and the aggregate list that owns the scene and returns the closest hit.

use vstd::prelude::*;
use crate::vec3::Vec3;
use crate::ray::{Ray, ray_at};
use crate::sphere::{Sphere, MovingSphere, sphere_hit_spec, lemma_sphere_hit_in_range,
    lemma_sphere_hit_narrow};
use crate::material::Material;

verus! {

/// An intersection: the contact point, the normal — unit length up to
/// fixed-point rounding, oriented to oppose the incoming ray — the ray
/// parameter of the contact, whether the geometric outward normal already
/// opposed the ray, and the handle of the material at the surface.
#[derive(Clone, Copy, Debug, PartialEq, Eq, Structural)]
pub struct HitRecord {
    pub point: Vec3,
    pub normal: Vec3,
    pub t: i64,
    pub front_face: bool,
    pub material: usize,
}

/// Any scene object supporting ray-intersection queries. The family is
/// closed, so intersection dispatch is an exhaustive match.
#[derive(Clone, Copy, Debug, PartialEq, Eq, Structural)]
pub enum Hittable {
    Sphere(Sphere),
    MovingSphere(MovingSphere),
}

/// The intersection of `ray` with a single object strictly inside
/// `(t_min, t_max)`.
pub open spec fn object_hit_spec(o: Hittable, ray: Ray, t_min: i64, t_max: i64) -> Option<
    HitRecord,
> {
    match o {
        Hittable::Sphere(s) => sphere_hit_spec(s.centre, s.radius, s.material, ray, t_min, t_max),
        Hittable::MovingSphere(ms) => sphere_hit_spec(
            ray_at(ms.centre, ray.time),
            ms.radius,
            ms.material,
            ray,
            t_min,
            t_max,
        ),
    }
}

impl Hittable {
    /// The closest intersection of `ray` with this object strictly inside
    /// `(t_min, t_max)`, if any.
    pub fn hit(&self, ray: &Ray, t_min: i64, t_max: i64) -> (res: Option<HitRecord>)
        ensures
            res == object_hit_spec(*self, *ray, t_min, t_max),
    {
        match self {
            Hittable::Sphere(s) => s.hit(ray, t_min, t_max),
            Hittable::MovingSphere(ms) => ms.hit(ray, t_min, t_max),
        }
    }
}

/// An object's hit parameter lies strictly inside the query interval.
pub proof fn lemma_object_hit_in_range(o: Hittable, ray: Ray, t_min: i64, t_max: i64)
    ensures
        match object_hit_spec(o, ray, t_min, t_max) {
            Some(rec) => t_min < rec.t < t_max,
            None => true,
        },
{
    match o {
        Hittable::Sphere(s) => {
            lemma_sphere_hit_in_range(s.centre, s.radius, s.material, ray, t_min, t_max);
        },
        Hittable::MovingSphere(ms) => {
            lemma_sphere_hit_in_range(
                ray_at(ms.centre, ray.time),
                ms.radius,
                ms.material,
                ray,
                t_min,
                t_max,
            );
        },
    }
}

/// Shrinking the far end of the query interval filters an object's hit:
/// one closer than the new bound is unchanged, any other disappears.
pub proof fn lemma_object_hit_narrow(o: Hittable, ray: Ray, t_min: i64, t1: i64, t2: i64)
    requires
        t1 <= t2,
    ensures
        object_hit_spec(o, ray, t_min, t1) == match object_hit_spec(o, ray, t_min, t2) {
            Some(rec) => if rec.t < t1 {
                Some(rec)
            } else {
                None::<HitRecord>
            },
            None => None::<HitRecord>,
        },
{
    match o {
        Hittable::Sphere(s) => {
            lemma_sphere_hit_narrow(s.centre, s.radius, s.material, ray, t_min, t1, t2);
        },
        Hittable::MovingSphere(ms) => {
            lemma_sphere_hit_narrow(
                ray_at(ms.centre, ray.time),
                ms.radius,
                ms.material,
                ray,
                t_min,
                t1,
                t2,
            );
        },
    }
}

/// The fold that scans the members from index `i` onward, keeping the
/// closest hit found so far and narrowing the far bound to its parameter.
pub open spec fn list_hit_from(
    objs: Seq<Hittable>,
    i: int,
    ray: Ray,
    t_min: i64,
    best_t: i64,
    best: Option<HitRecord>,
) -> Option<HitRecord>
    decreases objs.len() - i,
{
    if i < 0 || i >= objs.len() {
        best
    } else {
        match object_hit_spec(objs[i], ray, t_min, best_t) {
            Some(rec) => list_hit_from(objs, i + 1, ray, t_min, rec.t, Some(rec)),
            None => list_hit_from(objs, i + 1, ray, t_min, best_t, best),
        }
    }
}

/// The closest intersection of `ray` with any member of the list strictly
/// inside `(t_min, t_max)`.
pub open spec fn list_hit_spec(objs: Seq<Hittable>, ray: Ray, t_min: i64, t_max: i64) -> Option<
    HitRecord,
> {
    list_hit_from(objs, 0, ray, t_min, t_max, None)
}

/// Two objects both hit by a ray, one strictly closer than the other: the
/// aggregate returns the strictly closer intersection, whichever order the
/// scene lists them in.
pub proof fn lemma_aggregate_closest_hit(a: Hittable, b: Hittable, ray: Ray, t_min: i64, t_max: i64)
    requires
        object_hit_spec(a, ray, t_min, t_max) is Some,
        object_hit_spec(b, ray, t_min, t_max) is Some,
        object_hit_spec(a, ray, t_min, t_max)->Some_0.t < object_hit_spec(
            b,
            ray,
            t_min,
            t_max,
        )->Some_0.t,
    ensures
        list_hit_spec(seq![a, b], ray, t_min, t_max) == object_hit_spec(a, ray, t_min, t_max),
        list_hit_spec(seq![b, a], ray, t_min, t_max) == object_hit_spec(a, ray, t_min, t_max),
{
    let ra = object_hit_spec(a, ray, t_min, t_max)->Some_0;
    let rb = object_hit_spec(b, ray, t_min, t_max)->Some_0;
    lemma_object_hit_in_range(a, ray, t_min, t_max);
    lemma_object_hit_in_range(b, ray, t_min, t_max);
    lemma_object_hit_narrow(b, ray, t_min, ra.t, t_max);
    lemma_object_hit_narrow(a, ray, t_min, rb.t, t_max);
    assert(seq![a, b][0] == a && seq![a, b][1] == b);
    assert(seq![b, a][0] == b && seq![b, a][1] == a);
    reveal_with_fuel(list_hit_from, 4);
}

/// The aggregate scene: a list owning every hittable object, together with
/// the arena of materials the objects reference by handle. Materials are
/// immutable once added, so sharing one handle across many surfaces is
/// safe.
pub struct HittableList {
    pub objects: Vec<Hittable>,
    pub materials: Vec<Material>,
}

impl HittableList {
    /// An empty scene.
    pub fn new() -> (r: HittableList)
        ensures
            r.objects@.len() == 0,
            r.materials@.len() == 0,
    {
        HittableList { objects: Vec::new(), materials: Vec::new() }
    }

    /// Append an object to the scene.
    pub fn add(&mut self, hittable: Hittable)
        ensures
            final(self).objects@ == old(self).objects@.push(hittable),
            final(self).materials == old(self).materials,
    {
        self.objects.push(hittable);
    }

    /// Add a material to the arena and return its handle.
    pub fn add_material(&mut self, material: Material) -> (handle: usize)
        ensures
            final(self).materials@ == old(self).materials@.push(material),
            final(self).objects == old(self).objects,
            handle == old(self).materials@.len(),
    {
        let handle = self.materials.len();
        self.materials.push(material);
        handle
    }

    /// Remove every object; the material arena is kept.
    pub fn _clear(&mut self)
        ensures
            final(self).objects@.len() == 0,
            final(self).materials == old(self).materials,
    {
        self.objects.clear();
    }

    /// The closest hit of `ray` among all members, strictly inside
    /// `(t_min, t_max)`: the member intersection with globally minimal
    /// parameter, or nothing when no member is hit.
    #[verifier::rlimit(60)]
    pub fn hit(&self, ray: &Ray, t_min: i64, t_max: i64) -> (res: Option<HitRecord>)
        ensures
            res == list_hit_spec(self.objects@, *ray, t_min, t_max),
            match res {
                Some(rec) => {
                    &&& t_min < rec.t < t_max
                    &&& exists|j: int|
                        0 <= j < self.objects@.len() && #[trigger] object_hit_spec(
                            self.objects@[j],
                            *ray,
                            t_min,
                            t_max,
                        ) == Some(rec)
                    &&& forall|j: int|
                        0 <= j < self.objects@.len() ==> match #[trigger] object_hit_spec(
                            self.objects@[j],
                            *ray,
                            t_min,
                            t_max,
                        ) {
                            Some(other) => rec.t <= other.t,
                            None => true,
                        }
                },
                None => forall|j: int|
                    0 <= j < self.objects@.len() ==> #[trigger] object_hit_spec(
                        self.objects@[j],
                        *ray,
                        t_min,
                        t_max,
                    ) is None,
            },
    {
        let mut best: Option<HitRecord> = None;
        let mut closest: i64 = t_max;
        let n = self.objects.len();
        let mut i: usize = 0;
        while i < n
            invariant
                n == self.objects@.len(),
                i <= n,
                closest <= t_max,
                list_hit_spec(self.objects@, *ray, t_min, t_max) == list_hit_from(
                    self.objects@,
                    i as int,
                    *ray,
                    t_min,
                    closest,
                    best,
                ),
                match best {
                    Some(rec) => {
                        &&& closest == rec.t
                        &&& t_min < rec.t < t_max
                        &&& exists|j: int|
                            0 <= j < i && #[trigger] object_hit_spec(
                                self.objects@[j],
                                *ray,
                                t_min,
                                t_max,
                            ) == Some(rec)
                        &&& forall|j: int|
                            0 <= j < i ==> match #[trigger] object_hit_spec(
                                self.objects@[j],
                                *ray,
                                t_min,
                                t_max,
                            ) {
                                Some(other) => rec.t <= other.t,
                                None => true,
                            }
                    },
                    None => {
                        &&& closest == t_max
                        &&& forall|j: int|
                            0 <= j < i ==> #[trigger] object_hit_spec(
                                self.objects@[j],
                                *ray,
                                t_min,
                                t_max,
                            ) is None
                    },
                },
            decreases n - i,
        {
            let cur = self.objects[i].hit(ray, t_min, closest);
            proof {
                lemma_object_hit_narrow(self.objects@[i as int], *ray, t_min, closest, t_max);
                lemma_object_hit_in_range(self.objects@[i as int], *ray, t_min, t_max);
            }
            match cur {
                Some(rec) => {
                    best = Some(rec);
                    closest = rec.t;
                },
                None => {},
            }
            i = i + 1;
        }
        best
    }
}

} // verus!
