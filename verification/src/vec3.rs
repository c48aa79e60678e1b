//! Three-component fixed-point vectors.
//!
//! Components are 16.16 scalars (see [`crate::fx`]); every operation is the
//! componentwise saturating fixed-point operation, specified exactly by a
//! `spec` mirror. Vectors double as linear RGB colours, with `FX_ONE` as
//! full intensity.

use vstd::prelude::*;
use crate::fx::{fxadd, fxsub, fxneg, fxmul, fxdiv, fxsqrt};
use crate::fx::{fx_add, fx_sub, fx_neg, fx_mul, fx_div, fx_sqrt, FX_ONE};

verus! {

/// A vector (or colour) of three 16.16 fixed-point scalars.
#[derive(Clone, Copy, Debug, PartialEq, Eq, Structural)]
pub struct Vec3 {
    pub x: i64,
    pub y: i64,
    pub z: i64,
}

/// Componentwise saturating sum.
pub open spec fn v_add(a: Vec3, b: Vec3) -> Vec3 {
    Vec3 { x: fxadd(a.x, b.x), y: fxadd(a.y, b.y), z: fxadd(a.z, b.z) }
}

/// Componentwise saturating difference.
pub open spec fn v_sub(a: Vec3, b: Vec3) -> Vec3 {
    Vec3 { x: fxsub(a.x, b.x), y: fxsub(a.y, b.y), z: fxsub(a.z, b.z) }
}

/// Componentwise saturating negation.
pub open spec fn v_neg(a: Vec3) -> Vec3 {
    Vec3 { x: fxneg(a.x), y: fxneg(a.y), z: fxneg(a.z) }
}

/// The vector scaled by a scalar.
pub open spec fn v_scale(s: i64, a: Vec3) -> Vec3 {
    Vec3 { x: fxmul(s, a.x), y: fxmul(s, a.y), z: fxmul(s, a.z) }
}

/// Componentwise (Hadamard) product; this is how attenuation colours act on
/// radiance.
pub open spec fn v_hadamard(a: Vec3, b: Vec3) -> Vec3 {
    Vec3 { x: fxmul(a.x, b.x), y: fxmul(a.y, b.y), z: fxmul(a.z, b.z) }
}

/// Componentwise division by a scalar.
pub open spec fn v_div_scalar(a: Vec3, s: i64) -> Vec3 {
    Vec3 { x: fxdiv(a.x, s), y: fxdiv(a.y, s), z: fxdiv(a.z, s) }
}

/// Dot product, accumulated left to right.
pub open spec fn v_dot(a: Vec3, b: Vec3) -> i64 {
    fxadd(fxadd(fxmul(a.x, b.x), fxmul(a.y, b.y)), fxmul(a.z, b.z))
}

/// Cross product.
pub open spec fn v_cross(a: Vec3, b: Vec3) -> Vec3 {
    Vec3 {
        x: fxsub(fxmul(a.y, b.z), fxmul(a.z, b.y)),
        y: fxsub(fxmul(a.z, b.x), fxmul(a.x, b.z)),
        z: fxsub(fxmul(a.x, b.y), fxmul(a.y, b.x)),
    }
}

/// Squared magnitude.
pub open spec fn v_mag_sq(a: Vec3) -> i64 {
    v_dot(a, a)
}

/// Magnitude (fixed-point square root of the squared magnitude).
pub open spec fn v_mag(a: Vec3) -> i64 {
    fxsqrt(v_mag_sq(a))
}

/// The vector scaled to unit length; the zero vector (whose magnitude rounds
/// to zero) is mapped to the zero vector, a guard callers pair with an
/// explicit degeneracy check.
pub open spec fn v_unit(a: Vec3) -> Vec3 {
    let l = v_mag(a);
    if l == 0 {
        Vec3 { x: 0, y: 0, z: 0 }
    } else {
        v_div_scalar(a, l)
    }
}

/// Mirror reflection about a surface normal: `v - 2 (v . n) n`.
pub open spec fn v_reflect(v: Vec3, n: Vec3) -> Vec3 {
    let d = v_dot(v, n);
    v_sub(v, v_scale(fxadd(d, d), n))
}

/// Snell refraction of the unit vector `uv` about normal `n` with relative
/// index `eta`: the incoming direction is split into components
/// perpendicular and parallel to `n`. Callers rule out total internal
/// reflection first; the square root saturates at zero if rounding drives
/// its argument negative.
pub open spec fn v_refract(uv: Vec3, n: Vec3, eta: i64) -> Vec3 {
    let cos_theta = {
        let d = v_dot(v_neg(uv), n);
        if d <= FX_ONE {
            d
        } else {
            FX_ONE
        }
    };
    let perp = v_scale(eta, v_add(uv, v_scale(cos_theta, n)));
    let parallel = v_scale(fxneg(fxsqrt(fxsub(FX_ONE, v_mag_sq(perp)))), n);
    v_add(perp, parallel)
}

/// Negating the right operand negates a dot product, as long as no
/// component of it is the unrepresentable magnitude `i64::MIN`.
pub proof fn lemma_v_dot_neg(a: Vec3, b: Vec3)
    requires
        -crate::fx::FX_MAX <= b.x,
        -crate::fx::FX_MAX <= b.y,
        -crate::fx::FX_MAX <= b.z,
    ensures
        v_dot(a, v_neg(b)) == fxneg(v_dot(a, b)),
{
    crate::fx::lemma_fxmul_neg_right(a.x, b.x);
    crate::fx::lemma_fxmul_neg_right(a.y, b.y);
    crate::fx::lemma_fxmul_neg_right(a.z, b.z);
}

/// A squared magnitude is a sum of squares and so non-negative.
pub proof fn lemma_v_mag_sq_nonneg(a: Vec3)
    ensures
        0 <= v_mag_sq(a),
{
    crate::fx::lemma_fxmul_self_nonneg(a.x);
    crate::fx::lemma_fxmul_self_nonneg(a.y);
    crate::fx::lemma_fxmul_self_nonneg(a.z);
}

impl Vec3 {
    /// A vector from its three components.
    pub fn new(x: i64, y: i64, z: i64) -> (r: Vec3)
        ensures
            r == (Vec3 { x, y, z }),
    {
        Vec3 { x, y, z }
    }

    /// The zero vector (also the colour black).
    pub fn zero() -> (r: Vec3)
        ensures
            r == (Vec3 { x: 0i64, y: 0i64, z: 0i64 }),
    {
        Vec3 { x: 0, y: 0, z: 0 }
    }

    /// The all-ones vector (also the colour white).
    pub fn one() -> (r: Vec3)
        ensures
            r == (Vec3 { x: FX_ONE, y: FX_ONE, z: FX_ONE }),
    {
        Vec3 { x: FX_ONE, y: FX_ONE, z: FX_ONE }
    }

    /// Componentwise saturating sum.
    pub fn plus(&self, o: &Vec3) -> (r: Vec3)
        ensures
            r == v_add(*self, *o),
    {
        Vec3 { x: fx_add(self.x, o.x), y: fx_add(self.y, o.y), z: fx_add(self.z, o.z) }
    }

    /// Componentwise saturating difference.
    pub fn minus(&self, o: &Vec3) -> (r: Vec3)
        ensures
            r == v_sub(*self, *o),
    {
        Vec3 { x: fx_sub(self.x, o.x), y: fx_sub(self.y, o.y), z: fx_sub(self.z, o.z) }
    }

    /// Componentwise saturating negation.
    pub fn negated(&self) -> (r: Vec3)
        ensures
            r == v_neg(*self),
    {
        Vec3 { x: fx_neg(self.x), y: fx_neg(self.y), z: fx_neg(self.z) }
    }

    /// The vector scaled by `s`.
    pub fn scaled(&self, s: i64) -> (r: Vec3)
        ensures
            r == v_scale(s, *self),
    {
        Vec3 { x: fx_mul(s, self.x), y: fx_mul(s, self.y), z: fx_mul(s, self.z) }
    }

    /// Componentwise product.
    pub fn hadamard(&self, o: &Vec3) -> (r: Vec3)
        ensures
            r == v_hadamard(*self, *o),
    {
        Vec3 { x: fx_mul(self.x, o.x), y: fx_mul(self.y, o.y), z: fx_mul(self.z, o.z) }
    }

    /// Componentwise division by `s`.
    pub fn div_scalar(&self, s: i64) -> (r: Vec3)
        ensures
            r == v_div_scalar(*self, s),
    {
        Vec3 { x: fx_div(self.x, s), y: fx_div(self.y, s), z: fx_div(self.z, s) }
    }

    /// Dot product.
    pub fn dot(&self, o: &Vec3) -> (r: i64)
        ensures
            r == v_dot(*self, *o),
    {
        fx_add(fx_add(fx_mul(self.x, o.x), fx_mul(self.y, o.y)), fx_mul(self.z, o.z))
    }

    /// Cross product.
    pub fn cross(&self, o: &Vec3) -> (r: Vec3)
        ensures
            r == v_cross(*self, *o),
    {
        Vec3 {
            x: fx_sub(fx_mul(self.y, o.z), fx_mul(self.z, o.y)),
            y: fx_sub(fx_mul(self.z, o.x), fx_mul(self.x, o.z)),
            z: fx_sub(fx_mul(self.x, o.y), fx_mul(self.y, o.x)),
        }
    }

    /// Squared magnitude.
    pub fn mag_sq(&self) -> (r: i64)
        ensures
            r == v_mag_sq(*self),
    {
        self.dot(self)
    }

    /// Magnitude.
    pub fn mag(&self) -> (r: i64)
        ensures
            r == v_mag(*self),
    {
        fx_sqrt(self.mag_sq())
    }

    /// The vector scaled to unit length (zero stays zero).
    pub fn normalized(&self) -> (r: Vec3)
        ensures
            r == v_unit(*self),
    {
        let l = self.mag();
        if l == 0 {
            Vec3 { x: 0, y: 0, z: 0 }
        } else {
            self.div_scalar(l)
        }
    }

    /// Mirror reflection about the normal `n`.
    pub fn reflected(&self, n: &Vec3) -> (r: Vec3)
        ensures
            r == v_reflect(*self, *n),
    {
        let d = self.dot(n);
        self.minus(&n.scaled(fx_add(d, d)))
    }

    /// Snell refraction about the normal `n` with relative index `eta`.
    pub fn refracted(&self, n: &Vec3, eta: i64) -> (r: Vec3)
        ensures
            r == v_refract(*self, *n, eta),
    {
        let d = self.negated().dot(n);
        let cos_theta = if d <= FX_ONE { d } else { FX_ONE };
        let perp = self.plus(&n.scaled(cos_theta)).scaled(eta);
        let parallel = n.scaled(fx_neg(fx_sqrt(fx_sub(FX_ONE, perp.mag_sq()))));
        perp.plus(&parallel)
    }
}

} // verus!
