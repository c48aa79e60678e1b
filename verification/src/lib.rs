//! An offline Monte-Carlo path tracer that renders a scene of spheres with
//! diffuse, metallic and dielectric materials into an 8-bit RGB framebuffer.
//!
//! All scalar quantities are signed 16.16 fixed-point numbers (see [`fx`]),
//! so the whole rendering pipeline — camera ray generation, sphere
//! intersection, material scattering and the recursive radiance loop — is
//! deterministic, total, and verified against exact contracts. Randomness is
//! an explicitly seeded stream ([`rng::Rng`]) threaded through sampling, so a
//! fixed seed reproduces a render bit for bit.

pub mod fx;
pub mod vec3;
pub mod rng;
pub mod ray;
pub mod hittable;
pub mod sphere;
pub mod material;
pub mod camera;
