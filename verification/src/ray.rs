//! Rays and the rejection-sampled random directions used by scattering.
//!
//! A ray records an origin, a direction (not necessarily unit length at
//! construction) and a time in `[0, FX_ONE)` at which moving geometry is
//! evaluated.

use vstd::prelude::*;
use crate::fx::FX_ONE;
use crate::vec3::{Vec3, v_add, v_scale, v_mag_sq, v_unit};
use crate::rng::{Rng, rng_next_state, rng_output, fx_sym_of};

verus! {

/// How many draws a rejection sampler makes before falling back to a fixed
/// safe direction. Each draw is accepted with probability over a third, so
/// the fallback is unreachable in practice; it bounds the loop so the
/// sampler is total and exactly specified.
pub const SAMPLE_TRIES: u32 = 64;

/// A ray: origin, direction and motion-blur time.
#[derive(Clone, Copy, Debug, PartialEq, Eq, Structural)]
pub struct Ray {
    pub origin: Vec3,
    pub direction: Vec3,
    pub time: i64,
}

/// The point reached by travelling `t` along the ray.
pub open spec fn ray_at(r: Ray, t: i64) -> Vec3 {
    v_add(r.origin, v_scale(t, r.direction))
}

impl Ray {
    /// A ray from its origin, direction and time.
    pub fn new(origin: Vec3, direction: Vec3, time: i64) -> (r: Ray)
        ensures
            r == (Ray { origin, direction, time }),
    {
        Ray { origin, direction, time }
    }

    /// The point reached by travelling `t` along the ray.
    pub fn at(&self, t: i64) -> (p: Vec3)
        ensures
            p == ray_at(*self, t),
    {
        self.origin.plus(&self.direction.scaled(t))
    }
}

/// Whether every component of the vector rounds to zero. The customary
/// guard threshold of 1e-8 lies below the 16.16 resolution of 2^-16, so
/// only exact zeroes qualify.
pub open spec fn is_near_zero(v: Vec3) -> bool {
    v.x == 0 && v.y == 0 && v.z == 0
}

/// Whether every component of the vector rounds to zero.
pub fn near_zero(v: &Vec3) -> (r: bool)
    ensures
        r == is_near_zero(*v),
{
    v.x == 0 && v.y == 0 && v.z == 0
}

/// The vector and final stream counter produced by rejection-sampling a
/// uniform unit vector: draw three components in `[-FX_ONE, FX_ONE)`, accept
/// when the squared magnitude lies strictly between zero and one, and
/// normalize; after `tries` rejections fall back to the positive z axis.
pub open spec fn unit_vec_from(s: u64, tries: nat) -> (Vec3, u64)
    decreases tries,
{
    if tries == 0 {
        (Vec3 { x: 0, y: 0, z: FX_ONE }, s)
    } else {
        let x = fx_sym_of(rng_output(s));
        let s1 = rng_next_state(s);
        let y = fx_sym_of(rng_output(s1));
        let s2 = rng_next_state(s1);
        let z = fx_sym_of(rng_output(s2));
        let s3 = rng_next_state(s2);
        let v = Vec3 { x, y, z };
        let m = v_mag_sq(v);
        if 0 < m < FX_ONE {
            (v_unit(v), s3)
        } else {
            unit_vec_from(s3, (tries - 1) as nat)
        }
    }
}

/// The vector and final stream counter produced by rejection-sampling a
/// point in the unit disk of the xy plane: draw two components in
/// `[-FX_ONE, FX_ONE)`, accept when the squared magnitude is below one;
/// after `tries` rejections fall back to the centre.
pub open spec fn unit_disk_from(s: u64, tries: nat) -> (Vec3, u64)
    decreases tries,
{
    if tries == 0 {
        (Vec3 { x: 0, y: 0, z: 0 }, s)
    } else {
        let x = fx_sym_of(rng_output(s));
        let s1 = rng_next_state(s);
        let y = fx_sym_of(rng_output(s1));
        let s2 = rng_next_state(s1);
        let v = Vec3 { x, y, z: 0 };
        let m = v_mag_sq(v);
        if m < FX_ONE {
            (v, s2)
        } else {
            unit_disk_from(s2, (tries - 1) as nat)
        }
    }
}

/// Draw a direction distributed uniformly over the unit sphere.
pub fn random_unit_vec(rng: &mut Rng) -> (v: Vec3)
    ensures
        (v, final(rng).state) == unit_vec_from(old(rng).state, SAMPLE_TRIES as nat),
{
    let mut tries: u32 = SAMPLE_TRIES;
    while tries > 0
        invariant
            unit_vec_from(old(rng).state, SAMPLE_TRIES as nat) == unit_vec_from(
                rng.state,
                tries as nat,
            ),
        decreases tries,
    {
        let ghost s0: u64 = rng.state;
        let x = rng.next_fx_sym();
        let y = rng.next_fx_sym();
        let z = rng.next_fx_sym();
        let v = Vec3::new(x, y, z);
        let m = v.mag_sq();
        if 0 < m && m < FX_ONE {
            return v.normalized();
        }
        tries = tries - 1;
    }
    Vec3::new(0, 0, FX_ONE)
}

/// Draw a point distributed uniformly over the unit disk of the xy plane.
pub fn random_in_unit_disk(rng: &mut Rng) -> (v: Vec3)
    ensures
        (v, final(rng).state) == unit_disk_from(old(rng).state, SAMPLE_TRIES as nat),
{
    let mut tries: u32 = SAMPLE_TRIES;
    while tries > 0
        invariant
            unit_disk_from(old(rng).state, SAMPLE_TRIES as nat) == unit_disk_from(
                rng.state,
                tries as nat,
            ),
        decreases tries,
    {
        let ghost s0: u64 = rng.state;
        let x = rng.next_fx_sym();
        let y = rng.next_fx_sym();
        let v = Vec3::new(x, y, 0);
        let m = v.mag_sq();
        if m < FX_ONE {
            return v;
        }
        tries = tries - 1;
    }
    Vec3::new(0, 0, 0)
}

} // verus!
