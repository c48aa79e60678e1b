//! Fixed-point scalar and vector arithmetic.

use pathtracer::fx::{fx_add, fx_clamp, fx_div, fx_min, fx_mul, fx_neg, fx_sqrt, fx_sub, FX_MAX,
    FX_ONE};
use pathtracer::rng::Rng;
use pathtracer::vec3::Vec3;

#[test]
fn fx_add_and_sub_exact() {
    assert_eq!(fx_add(FX_ONE, FX_ONE), 2 * FX_ONE);
    assert_eq!(fx_sub(FX_ONE, 3 * FX_ONE), -2 * FX_ONE);
    assert_eq!(fx_neg(5 * FX_ONE), -5 * FX_ONE);
}

#[test]
fn fx_add_saturates() {
    assert_eq!(fx_add(FX_MAX, FX_MAX), FX_MAX);
    assert_eq!(fx_sub(-FX_MAX, FX_MAX), -FX_MAX);
    assert_eq!(fx_neg(i64::MIN), FX_MAX);
}

#[test]
fn fx_mul_exact_and_truncating() {
    assert_eq!(fx_mul(FX_ONE, FX_ONE), FX_ONE);
    assert_eq!(fx_mul(2 * FX_ONE, 3 * FX_ONE), 6 * FX_ONE);
    assert_eq!(fx_mul(-2 * FX_ONE, 3 * FX_ONE), -6 * FX_ONE);
    // 3 * 3 = 9 raw units, far below one raw unit after scaling: truncates
    // toward zero from either sign.
    assert_eq!(fx_mul(3, 3), 0);
    assert_eq!(fx_mul(-3, 3), 0);
}

#[test]
fn fx_mul_saturates() {
    assert_eq!(fx_mul(FX_MAX, FX_MAX), FX_MAX);
    assert_eq!(fx_mul(FX_MAX, -FX_MAX), -FX_MAX);
}

#[test]
fn fx_div_exact_rounding_and_zero() {
    assert_eq!(fx_div(FX_ONE, 2 * FX_ONE), FX_ONE / 2);
    assert_eq!(fx_div(-FX_ONE, 2 * FX_ONE), -FX_ONE / 2);
    assert_eq!(fx_div(FX_ONE, 3 * FX_ONE), 21845); // 65536/3 truncated
    assert_eq!(fx_div(FX_ONE, 0), 0);
    assert_eq!(fx_div(0, FX_ONE), 0);
}

#[test]
fn fx_sqrt_exact_values() {
    assert_eq!(fx_sqrt(FX_ONE), FX_ONE);
    assert_eq!(fx_sqrt(4 * FX_ONE), 2 * FX_ONE);
    assert_eq!(fx_sqrt(0), 0);
    assert_eq!(fx_sqrt(-FX_ONE), 0);
    // sqrt(2) in 16.16 is 92681.9...; the floor is 92681.
    assert_eq!(fx_sqrt(2 * FX_ONE), 92681);
}

#[test]
fn fx_min_and_clamp() {
    assert_eq!(fx_min(3, 7), 3);
    assert_eq!(fx_min(7, 3), 3);
    assert_eq!(fx_clamp(-5, 0, FX_ONE), 0);
    assert_eq!(fx_clamp(FX_ONE + 1, 0, FX_ONE), FX_ONE);
    assert_eq!(fx_clamp(55, 0, FX_ONE), 55);
}

#[test]
fn vec3_componentwise_ops() {
    let a = Vec3::new(FX_ONE, 2 * FX_ONE, 3 * FX_ONE);
    let b = Vec3::new(4 * FX_ONE, 5 * FX_ONE, 6 * FX_ONE);
    assert_eq!(a.plus(&b), Vec3::new(5 * FX_ONE, 7 * FX_ONE, 9 * FX_ONE));
    assert_eq!(b.minus(&a), Vec3::new(3 * FX_ONE, 3 * FX_ONE, 3 * FX_ONE));
    assert_eq!(a.negated(), Vec3::new(-FX_ONE, -2 * FX_ONE, -3 * FX_ONE));
    assert_eq!(a.scaled(2 * FX_ONE), Vec3::new(2 * FX_ONE, 4 * FX_ONE, 6 * FX_ONE));
    assert_eq!(a.hadamard(&b), Vec3::new(4 * FX_ONE, 10 * FX_ONE, 18 * FX_ONE));
    assert_eq!(b.div_scalar(2 * FX_ONE), Vec3::new(2 * FX_ONE, 5 * FX_ONE / 2, 3 * FX_ONE));
}

#[test]
fn vec3_dot_cross_mag() {
    let a = Vec3::new(FX_ONE, 2 * FX_ONE, 3 * FX_ONE);
    let b = Vec3::new(4 * FX_ONE, 5 * FX_ONE, 6 * FX_ONE);
    assert_eq!(a.dot(&b), 32 * FX_ONE);
    assert_eq!(a.cross(&b), Vec3::new(-3 * FX_ONE, 6 * FX_ONE, -3 * FX_ONE));
    let x = Vec3::new(FX_ONE, 0, 0);
    let y = Vec3::new(0, FX_ONE, 0);
    assert_eq!(x.cross(&y), Vec3::new(0, 0, FX_ONE));
    assert_eq!(a.mag_sq(), 14 * FX_ONE);
    assert_eq!(Vec3::new(3 * FX_ONE, 4 * FX_ONE, 0).mag(), 5 * FX_ONE);
}

#[test]
fn vec3_normalize_and_reflect() {
    let v = Vec3::new(3 * FX_ONE, 4 * FX_ONE, 0);
    assert_eq!(v.normalized(), Vec3::new(39321, 52428, 0)); // (0.6, 0.8, 0)
    assert_eq!(Vec3::new(0, 0, 0).normalized(), Vec3::new(0, 0, 0));
    // Reflecting a downward vector off the xz plane flips its y component.
    let d = Vec3::new(FX_ONE, -FX_ONE, 0);
    let n = Vec3::new(0, FX_ONE, 0);
    assert_eq!(d.reflected(&n), Vec3::new(FX_ONE, FX_ONE, 0));
}

#[test]
fn rng_streams_are_reproducible() {
    let mut a = Rng::seeded(12345);
    let mut b = Rng::seeded(12345);
    for _ in 0..16 {
        assert_eq!(a.next_u64(), b.next_u64());
    }
    let mut c = Rng::seeded(54321);
    assert_ne!(Rng::seeded(12345).next_u64(), c.next_u64());
}

#[test]
fn rng_draw_ranges() {
    let mut r = Rng::seeded(7);
    for _ in 0..64 {
        let unit = r.next_fx_unit();
        assert!((0..FX_ONE).contains(&unit));
        let sym = r.next_fx_sym();
        assert!((-FX_ONE..FX_ONE).contains(&sym));
        let jitter = r.next_jitter();
        assert!((-FX_ONE / 2..FX_ONE / 2).contains(&jitter));
    }
}
