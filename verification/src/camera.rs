//! The camera and the renderer: viewport derivation from a declarative
//! setup, jittered ray generation with depth of field and motion-blur time
//! sampling, the recursive radiance integrator, and the tone-mapped
//! framebuffer write.

use vstd::prelude::*;
use crate::fx::{fxadd, fxsub, fxmul, fxdiv, fxsqrt, fxclamp, fx_of_u32, FX_ONE, FX_HALF, FX_MAX};
use crate::fx::{fx_add, fx_sub, fx_mul, fx_div, fx_sqrt, fx_clamp, fx_from_u32};
use crate::fx::{lemma_fxmul_nonneg, lemma_fxsqrt_bounds, lemma_fxsqrt_ge_one};
use crate::vec3::{Vec3, v_add, v_sub, v_neg, v_scale, v_hadamard, v_div_scalar, v_cross, v_dot,
    v_mag_sq, v_unit};
use crate::ray::{Ray, unit_disk_from, unit_vec_from, random_in_unit_disk, random_unit_vec,
    SAMPLE_TRIES};
use crate::rng::{Rng, rng_next_state, rng_output, fx_unit_of, fx_jitter_of};
use crate::hittable::{Hittable, HittableList, list_hit_spec};
use crate::material::{Material, material_scatter_spec};

verus! {

/// The fixed-point representation of 2.0.
pub const FX_TWO: i64 = 0x2_0000;

/// Pi in 16.16 fixed point, rounded to the nearest representable value.
pub const FX_PI: i64 = 205887;

/// The lower ray-parameter bound used for every scene query: about 0.001,
/// so a scattered ray does not immediately re-hit the surface it left.
pub const T_EPS: i64 = 66;

/// The clamp ceiling applied before quantization: 0.999 in 16.16.
pub const CHANNEL_CLAMP: i64 = 65470;

/// Largest accepted image height in pixels.
pub const MAX_IMAGE_HEIGHT: u32 = 8192;

/// Largest accepted image width in pixels.
pub const MAX_IMAGE_WIDTH: u32 = 16384;

/// Truncated Maclaurin sine, `x - x^3/6 + x^5/120 - x^7/5040`, accurate on
/// the half-angle range `[0, pi/2)` the camera uses.
pub open spec fn sin_fx(x: i64) -> i64 {
    let x2 = fxmul(x, x);
    let x3 = fxmul(x2, x);
    let x5 = fxmul(x3, x2);
    let x7 = fxmul(x5, x2);
    fxsub(fxadd(fxsub(x, fxdiv(x3, 393216)), fxdiv(x5, 7864320)), fxdiv(x7, 330301440))
}

/// Truncated Maclaurin cosine, `1 - x^2/2 + x^4/24 - x^6/720`, accurate on
/// the half-angle range `[0, pi/2)` the camera uses.
pub open spec fn cos_fx(x: i64) -> i64 {
    let x2 = fxmul(x, x);
    let x4 = fxmul(x2, x2);
    let x6 = fxmul(x4, x2);
    fxsub(fxadd(fxsub(FX_ONE, fxdiv(x2, 131072)), fxdiv(x4, 1572864)), fxdiv(x6, 47185920))
}

/// Truncated Maclaurin sine (see [`sin_fx`]).
pub fn sin_poly(x: i64) -> (r: i64)
    ensures
        r == sin_fx(x),
{
    let x2 = fx_mul(x, x);
    let x3 = fx_mul(x2, x);
    let x5 = fx_mul(x3, x2);
    let x7 = fx_mul(x5, x2);
    fx_sub(fx_add(fx_sub(x, fx_div(x3, 393216)), fx_div(x5, 7864320)), fx_div(x7, 330301440))
}

/// Truncated Maclaurin cosine (see [`cos_fx`]).
pub fn cos_poly(x: i64) -> (r: i64)
    ensures
        r == cos_fx(x),
{
    let x2 = fx_mul(x, x);
    let x4 = fx_mul(x2, x2);
    let x6 = fx_mul(x4, x2);
    fx_sub(fx_add(fx_sub(FX_ONE, fx_div(x2, 131072)), fx_div(x4, 1572864)), fx_div(x6, 47185920))
}

/// Why a camera setup was rejected.
#[derive(Clone, Copy, Debug, PartialEq, Eq, Structural)]
pub enum ConfigError {
    NonPositiveImageHeight,
    ImageTooLarge,
    NonPositiveAspectRatio,
    NoSamples,
    InvalidFieldOfView,
    InvalidDefocusAngle,
    NonPositiveFocusDistance,
    ZeroImageWidth,
    LookPointsCoincide,
    DegenerateUpDirection,
}

/// The declarative description a camera is built from. Angles are 16.16
/// radians; lengths and points are 16.16 world units.
#[derive(Clone, Copy, Debug, PartialEq, Eq, Structural)]
pub struct CameraSetup {
    pub image_height: u32,
    pub aspect_ratio: i64,
    pub samples_per_px: u32,
    pub max_depth: u32,
    pub vfov: i64,
    pub look_from: Vec3,
    pub look_at: Vec3,
    pub vertical_up: Vec3,
    pub defocus_angle: i64,
    pub focus_distance: i64,
}

impl CameraSetup {
    /// A setup from every field in declaration order.
    pub fn new(
        image_height: u32,
        aspect_ratio: i64,
        samples_per_px: u32,
        max_depth: u32,
        vertical_field_of_view: i64,
        look_from: Vec3,
        look_at: Vec3,
        vertical_up: Vec3,
        defocus_angle: i64,
        focus_distance: i64,
    ) -> (s: CameraSetup)
        ensures
            s == (CameraSetup {
                image_height,
                aspect_ratio,
                samples_per_px,
                max_depth,
                vfov: vertical_field_of_view,
                look_from,
                look_at,
                vertical_up,
                defocus_angle,
                focus_distance,
            }),
    {
        CameraSetup {
            image_height,
            aspect_ratio,
            samples_per_px,
            max_depth,
            vfov: vertical_field_of_view,
            look_from,
            look_at,
            vertical_up,
            defocus_angle,
            focus_distance,
        }
    }
}

impl Default for CameraSetup {
    /// A 720-line, 16:9, 32-sample setup looking down the negative z axis
    /// with a right-angle field of view and no depth of field.
    fn default() -> (s: CameraSetup)
        ensures
            s == (CameraSetup {
                image_height: 720u32,
                aspect_ratio: 116508i64,
                samples_per_px: 32u32,
                max_depth: 64u32,
                vfov: 102944i64,
                look_from: Vec3 { x: 0, y: 0, z: 0 },
                look_at: Vec3 { x: 0, y: 0, z: -0x1_0000i64 },
                vertical_up: Vec3 { x: 0, y: 0x1_0000, z: 0 },
                defocus_angle: 0i64,
                focus_distance: 0x1_0000i64,
            }),
    {
        CameraSetup {
            image_height: 720,
            aspect_ratio: 116508,
            samples_per_px: 32,
            max_depth: 64,
            vfov: 102944,
            look_from: Vec3 { x: 0, y: 0, z: 0 },
            look_at: Vec3 { x: 0, y: 0, z: -0x1_0000 },
            vertical_up: Vec3 { x: 0, y: 0x1_0000, z: 0 },
            defocus_angle: 0,
            focus_distance: 0x1_0000,
        }
    }
}

/// The image width a setup derives: height times aspect ratio, truncated
/// to whole pixels.
pub open spec fn derived_width(setup: CameraSetup) -> int {
    (fxmul(fx_of_u32(setup.image_height), setup.aspect_ratio) as int) / (FX_ONE as int)
}

/// The first reason a setup is rejected, in the order the checks run, or
/// nothing when the setup is valid.
pub open spec fn setup_error(setup: CameraSetup) -> Option<ConfigError> {
    if setup.image_height == 0 {
        Some(ConfigError::NonPositiveImageHeight)
    } else if setup.image_height > MAX_IMAGE_HEIGHT {
        Some(ConfigError::ImageTooLarge)
    } else if setup.aspect_ratio <= 0 {
        Some(ConfigError::NonPositiveAspectRatio)
    } else if setup.samples_per_px == 0 {
        Some(ConfigError::NoSamples)
    } else if setup.vfov <= 0 || setup.vfov >= FX_PI || cos_fx(fxdiv(setup.vfov, FX_TWO)) <= 0 {
        Some(ConfigError::InvalidFieldOfView)
    } else if setup.defocus_angle < 0 || setup.defocus_angle >= FX_PI || cos_fx(
        fxdiv(setup.defocus_angle, FX_TWO),
    ) <= 0 {
        Some(ConfigError::InvalidDefocusAngle)
    } else if setup.focus_distance <= 0 {
        Some(ConfigError::NonPositiveFocusDistance)
    } else if derived_width(setup) == 0 {
        Some(ConfigError::ZeroImageWidth)
    } else if derived_width(setup) > MAX_IMAGE_WIDTH as int {
        Some(ConfigError::ImageTooLarge)
    } else if v_mag_sq(v_sub(setup.look_from, setup.look_at)) == 0 {
        Some(ConfigError::LookPointsCoincide)
    } else if v_mag_sq(
        v_cross(setup.vertical_up, v_unit(v_sub(setup.look_from, setup.look_at))),
    ) == 0 {
        Some(ConfigError::DegenerateUpDirection)
    } else {
        None
    }
}

/// An offline camera: the derived viewport geometry, the sampling
/// parameters, and the framebuffer it renders into.
pub struct Camera {
    pub width: u32,
    pub height: u32,
    pub aspect_ratio: i64,
    pub px_samples: u32,
    pub px_samples_scale: i64,
    pub max_depth: u32,
    pub image: Vec<u8>,

    pub defocus_angle: i64,
    pub viewport_height: i64,
    pub viewport_width: i64,

    pub origin: Vec3,
    pub viewport_u: Vec3,
    pub viewport_v: Vec3,

    pub px_delta_u: Vec3,
    pub px_delta_v: Vec3,
    pub px_loc_100: Vec3,
    pub u: Vec3,
    pub v: Vec3,
    pub w: Vec3,

    pub defocus_disc_u: Vec3,
    pub defocus_disc_v: Vec3,
}

/// Whether the camera's derived geometry and sampling parameters are
/// exactly those a valid setup prescribes (the framebuffer is not
/// constrained).
pub open spec fn camera_matches(cam: Camera, setup: CameraSetup) -> bool {
    let width = derived_width(setup) as u32;
    let d = v_sub(setup.look_from, setup.look_at);
    let w_basis = v_unit(d);
    let u_basis = v_unit(v_cross(setup.vertical_up, w_basis));
    let v_basis = v_cross(w_basis, u_basis);
    let half = fxdiv(setup.vfov, FX_TWO);
    let h_t = fxdiv(sin_fx(half), cos_fx(half));
    let viewport_height = fxmul(fxmul(FX_TWO, h_t), setup.focus_distance);
    let viewport_width = fxmul(viewport_height, setup.aspect_ratio);
    let viewport_u = v_scale(viewport_width, u_basis);
    let viewport_v = v_scale(viewport_height, v_neg(v_basis));
    let px_delta_u = v_div_scalar(viewport_u, fx_of_u32(width));
    let px_delta_v = v_div_scalar(viewport_v, fx_of_u32(setup.image_height));
    let viewport_up_left = v_sub(
        v_sub(
            v_sub(setup.look_from, v_scale(setup.focus_distance, w_basis)),
            v_div_scalar(viewport_u, FX_TWO),
        ),
        v_div_scalar(viewport_v, FX_TWO),
    );
    let px_loc_100 = v_add(viewport_up_left, v_scale(FX_HALF, v_add(px_delta_u, px_delta_v)));
    let dhalf = fxdiv(setup.defocus_angle, FX_TWO);
    let tan_d = fxdiv(sin_fx(dhalf), cos_fx(dhalf));
    let defocus_radius = fxmul(setup.focus_distance, tan_d);

    &&& cam.width == width
    &&& cam.height == setup.image_height
    &&& cam.aspect_ratio == setup.aspect_ratio
    &&& cam.px_samples == setup.samples_per_px
    &&& cam.px_samples_scale == fxdiv(FX_ONE, fx_of_u32(setup.samples_per_px))
    &&& cam.max_depth == setup.max_depth
    &&& cam.defocus_angle == setup.defocus_angle
    &&& cam.viewport_height == viewport_height
    &&& cam.viewport_width == viewport_width
    &&& cam.origin == setup.look_from
    &&& cam.viewport_u == viewport_u
    &&& cam.viewport_v == viewport_v
    &&& cam.px_delta_u == px_delta_u
    &&& cam.px_delta_v == px_delta_v
    &&& cam.px_loc_100 == px_loc_100
    &&& cam.u == u_basis
    &&& cam.v == v_basis
    &&& cam.w == w_basis
    &&& cam.defocus_disc_u == v_scale(defocus_radius, u_basis)
    &&& cam.defocus_disc_v == v_scale(defocus_radius, v_basis)
}

/// Whether two cameras share every derived and sampling field (the
/// framebuffers may differ).
pub open spec fn same_config(a: Camera, b: Camera) -> bool {
    &&& a.width == b.width
    &&& a.height == b.height
    &&& a.aspect_ratio == b.aspect_ratio
    &&& a.px_samples == b.px_samples
    &&& a.px_samples_scale == b.px_samples_scale
    &&& a.max_depth == b.max_depth
    &&& a.defocus_angle == b.defocus_angle
    &&& a.viewport_height == b.viewport_height
    &&& a.viewport_width == b.viewport_width
    &&& a.origin == b.origin
    &&& a.viewport_u == b.viewport_u
    &&& a.viewport_v == b.viewport_v
    &&& a.px_delta_u == b.px_delta_u
    &&& a.px_delta_v == b.px_delta_v
    &&& a.px_loc_100 == b.px_loc_100
    &&& a.u == b.u
    &&& a.v == b.v
    &&& a.w == b.w
    &&& a.defocus_disc_u == b.defocus_disc_u
    &&& a.defocus_disc_v == b.defocus_disc_v
}

/// A point on the defocus disk and the stream counter after drawing it.
pub open spec fn defocus_sample_spec(cam: Camera, s: u64) -> (Vec3, u64) {
    let drawn = unit_disk_from(s, SAMPLE_TRIES as nat);
    (
        v_add(
            cam.origin,
            v_add(v_scale(drawn.0.x, cam.defocus_disc_u), v_scale(drawn.0.y, cam.defocus_disc_v)),
        ),
        drawn.1,
    )
}

/// The jittered, time-sampled ray for pixel `(x, y)` and the stream
/// counter after drawing it: the pixel centre is offset by half-pixel
/// jitter, the origin is the camera centre or a defocus-disk point, the
/// direction is normalized, and the time is uniform in `[0, FX_ONE)`.
pub open spec fn get_ray_spec(cam: Camera, x: u32, y: u32, s: u64) -> (Ray, u64) {
    let ox = fx_jitter_of(rng_output(s));
    let s1 = rng_next_state(s);
    let oy = fx_jitter_of(rng_output(s1));
    let s2 = rng_next_state(s1);
    let px_sample = v_add(
        v_add(cam.px_loc_100, v_scale(fxadd(fx_of_u32(x), ox), cam.px_delta_u)),
        v_scale(fxadd(fx_of_u32(y), oy), cam.px_delta_v),
    );
    let osd = if cam.defocus_angle <= 0 {
        (cam.origin, s2)
    } else {
        defocus_sample_spec(cam, s2)
    };
    let direction = v_unit(v_sub(px_sample, osd.0));
    let time = fx_unit_of(rng_output(osd.1));
    let s3 = rng_next_state(osd.1);
    (Ray { origin: osd.0, direction, time }, s3)
}

/// The radiance carried back along a ray, and the stream counter after
/// evaluating it: black once the bounce budget is spent; on a hit, the
/// scattered ray's radiance attenuated by the material (black when
/// absorbed or when the record's material handle is out of the arena); on
/// a miss, the white-to-sky-blue vertical gradient.
pub open spec fn ray_colour_spec(
    objs: Seq<Hittable>,
    mats: Seq<Material>,
    ray: Ray,
    depth: u32,
    s: u64,
) -> (Vec3, u64)
    decreases depth,
{
    if depth == 0 {
        (Vec3 { x: 0, y: 0, z: 0 }, s)
    } else {
        match list_hit_spec(objs, ray, T_EPS, FX_MAX) {
            Some(rec) => {
                if rec.material < mats.len() {
                    let sc = material_scatter_spec(mats[rec.material as int], ray, rec, s);
                    match sc.0 {
                        Some(pair) => {
                            let rest = ray_colour_spec(objs, mats, pair.0, (depth - 1) as u32, sc.1);
                            (v_hadamard(pair.1, rest.0), rest.1)
                        },
                        None => (Vec3 { x: 0, y: 0, z: 0 }, sc.1),
                    }
                } else {
                    (Vec3 { x: 0, y: 0, z: 0 }, s)
                }
            },
            None => {
                let unit_dir = v_unit(ray.direction);
                let a = fxmul(FX_HALF, fxadd(unit_dir.y, FX_ONE));
                (
                    v_add(
                        v_scale(fxsub(FX_ONE, a), Vec3 { x: FX_ONE, y: FX_ONE, z: FX_ONE }),
                        v_scale(a, Vec3 { x: 32768, y: 45875, z: FX_ONE }),
                    ),
                    s,
                )
            },
        }
    }
}

/// One 8-bit channel from linear radiance: square-root gamma (negative
/// radiance is darkened to zero), clamp to `[0, 0.999]`, then scale by 255
/// and round to nearest.
pub open spec fn to_channel_spec(c: i64) -> u8 {
    let g = fxsqrt(c);
    let cl = fxclamp(g, 0, CHANNEL_CLAMP);
    ((255 * (cl as int) + (FX_HALF as int)) / (FX_ONE as int)) as u8
}

/// One 8-bit channel from linear radiance (see [`to_channel_spec`]).
/// Radiance of at least one maps to 255; radiance of at most zero maps
/// to 0.
pub fn to_channel(c: i64) -> (r: u8)
    ensures
        r == to_channel_spec(c),
        c >= FX_ONE ==> r == 255,
        c <= 0 ==> r == 0,
{
    let g = fx_sqrt(c);
    proof {
        lemma_fxsqrt_bounds(c);
        if c >= FX_ONE {
            lemma_fxsqrt_ge_one(c);
        }
    }
    let cl = fx_clamp(g, 0, CHANNEL_CLAMP);
    let scaled = (255u64 * (cl as u64) + 32768) / 65536;
    scaled as u8
}

/// The running sum of `remaining` further sample radiances for pixel
/// `(x, y)`, starting from accumulator `acc` and stream counter `s`.
pub open spec fn sample_accum(
    objs: Seq<Hittable>,
    mats: Seq<Material>,
    cam: Camera,
    x: u32,
    y: u32,
    remaining: u32,
    s: u64,
    acc: Vec3,
) -> (Vec3, u64)
    decreases remaining,
{
    if remaining == 0 {
        (acc, s)
    } else {
        let gr = get_ray_spec(cam, x, y, s);
        let rc = ray_colour_spec(objs, mats, gr.0, cam.max_depth, gr.1);
        sample_accum(objs, mats, cam, x, y, (remaining - 1) as u32, rc.1, v_add(acc, rc.0))
    }
}

/// The seed of the independent stream pixel `(x, y)` samples from.
pub open spec fn pixel_stream_seed(seed: u64, x: u32, y: u32, width: u32) -> u64 {
    rng_output(seed ^ (((y as int) * (width as int) + (x as int)) as u64))
}

/// The three tone-mapped channels of pixel `(x, y)`: the mean of
/// `cam.px_samples` independent sample radiances, quantized. Opaque so
/// that reasoning about whole framebuffers does not unfold every pixel.
#[verifier::opaque]
pub open spec fn render_pixel_spec(
    cam: Camera,
    objs: Seq<Hittable>,
    mats: Seq<Material>,
    seed: u64,
    x: u32,
    y: u32,
) -> (u8, u8, u8) {
    let s0 = pixel_stream_seed(seed, x, y, cam.width);
    let summed = sample_accum(objs, mats, cam, x, y, cam.px_samples, s0, Vec3 { x: 0, y: 0, z: 0 });
    let col = v_scale(cam.px_samples_scale, summed.0);
    (to_channel_spec(col.x), to_channel_spec(col.y), to_channel_spec(col.z))
}

/// Whether the flattened framebuffer holds exactly the specified pixel at
/// `(x, y)`.
pub open spec fn pixel_ok(
    buffer: Seq<u8>,
    cam: Camera,
    objs: Seq<Hittable>,
    mats: Seq<Material>,
    seed: u64,
    x: u32,
    y: u32,
) -> bool {
    let px = render_pixel_spec(cam, objs, mats, seed, x, y);
    let base = 3 * ((y as int) * (cam.width as int) + (x as int));
    &&& buffer[base] == px.0
    &&& buffer[base + 1] == px.1
    &&& buffer[base + 2] == px.2
}

impl Camera {
    /// Derive a camera from a setup: the viewport basis `(u, v, w)`, the
    /// pixel-step vectors, the location of pixel `(0, 0)`, and the
    /// defocus-disk basis. Succeeds exactly when the setup passes every
    /// validity check, and returns the first failing check otherwise.
    pub fn init(cam_setup: &CameraSetup) -> (res: Result<Camera, ConfigError>)
        ensures
            match res {
                Ok(cam) => setup_error(*cam_setup) is None && camera_matches(cam, *cam_setup)
                    && cam.image@.len() == 0,
                Err(e) => setup_error(*cam_setup) == Some(e),
            },
    {
        if cam_setup.image_height == 0 {
            return Err(ConfigError::NonPositiveImageHeight);
        }
        if cam_setup.image_height > MAX_IMAGE_HEIGHT {
            return Err(ConfigError::ImageTooLarge);
        }
        if cam_setup.aspect_ratio <= 0 {
            return Err(ConfigError::NonPositiveAspectRatio);
        }
        if cam_setup.samples_per_px == 0 {
            return Err(ConfigError::NoSamples);
        }

        let vfov_cos = cos_poly(fx_div(cam_setup.vfov, FX_TWO));
        if cam_setup.vfov <= 0 || cam_setup.vfov >= FX_PI || vfov_cos <= 0 {
            return Err(ConfigError::InvalidFieldOfView);
        }
        let defocus_cos = cos_poly(fx_div(cam_setup.defocus_angle, FX_TWO));
        if cam_setup.defocus_angle < 0 || cam_setup.defocus_angle >= FX_PI || defocus_cos <= 0 {
            return Err(ConfigError::InvalidDefocusAngle);
        }
        if cam_setup.focus_distance <= 0 {
            return Err(ConfigError::NonPositiveFocusDistance);
        }

        let wfx = fx_mul(fx_from_u32(cam_setup.image_height), cam_setup.aspect_ratio);
        proof {
            lemma_fxmul_nonneg(fx_of_u32(cam_setup.image_height), cam_setup.aspect_ratio);
        }
        let wpx = (wfx as u64) / 65536;
        if wpx == 0 {
            return Err(ConfigError::ZeroImageWidth);
        }
        if wpx > MAX_IMAGE_WIDTH as u64 {
            return Err(ConfigError::ImageTooLarge);
        }
        let width = wpx as u32;

        let d = cam_setup.look_from.minus(&cam_setup.look_at);
        if d.mag_sq() == 0 {
            return Err(ConfigError::LookPointsCoincide);
        }
        let w = d.normalized();
        let cross_uw = cam_setup.vertical_up.cross(&w);
        if cross_uw.mag_sq() == 0 {
            return Err(ConfigError::DegenerateUpDirection);
        }
        let u = cross_uw.normalized();
        let v = w.cross(&u);

        let h = fx_div(sin_poly(fx_div(cam_setup.vfov, FX_TWO)), vfov_cos);
        let viewport_height = fx_mul(fx_mul(FX_TWO, h), cam_setup.focus_distance);
        let viewport_width = fx_mul(viewport_height, cam_setup.aspect_ratio);

        let viewport_u = u.scaled(viewport_width);
        let viewport_v = v.negated().scaled(viewport_height);

        let px_delta_u = viewport_u.div_scalar(fx_from_u32(width));
        let px_delta_v = viewport_v.div_scalar(fx_from_u32(cam_setup.image_height));

        let viewport_up_left = cam_setup.look_from
            .minus(&w.scaled(cam_setup.focus_distance))
            .minus(&viewport_u.div_scalar(FX_TWO))
            .minus(&viewport_v.div_scalar(FX_TWO));
        let px_loc_100 = viewport_up_left.plus(&px_delta_u.plus(&px_delta_v).scaled(FX_HALF));

        let tan_d = fx_div(sin_poly(fx_div(cam_setup.defocus_angle, FX_TWO)), defocus_cos);
        let defocus_radius = fx_mul(cam_setup.focus_distance, tan_d);
        let defocus_disc_u = u.scaled(defocus_radius);
        let defocus_disc_v = v.scaled(defocus_radius);

        Ok(
            Camera {
                width,
                height: cam_setup.image_height,
                aspect_ratio: cam_setup.aspect_ratio,
                px_samples: cam_setup.samples_per_px,
                px_samples_scale: fx_div(FX_ONE, fx_from_u32(cam_setup.samples_per_px)),
                max_depth: cam_setup.max_depth,
                image: Vec::new(),

                defocus_angle: cam_setup.defocus_angle,
                viewport_height,
                viewport_width,

                origin: cam_setup.look_from,
                viewport_u,
                viewport_v,

                px_delta_u,
                px_delta_v,
                px_loc_100,
                u,
                v,
                w,

                defocus_disc_u,
                defocus_disc_v,
            },
        )
    }

    /// A random unit direction in the hemisphere around `normal`: a
    /// uniform unit vector, negated when it points against the normal.
    pub fn random_on_hemisphere(normal: &Vec3, rng: &mut Rng) -> (v: Vec3)
        ensures
            ({
                let drawn = unit_vec_from(old(rng).state, SAMPLE_TRIES as nat);
                final(rng).state == drawn.1 && v == if v_dot(*normal, drawn.0) > 0 {
                    drawn.0
                } else {
                    v_neg(drawn.0)
                }
            }),
    {
        let rand_vec = random_unit_vec(rng);
        if normal.dot(&rand_vec) > 0 {
            rand_vec
        } else {
            rand_vec.negated()
        }
    }

    /// A point sampled uniformly from the camera's defocus disk.
    fn defocus_disc_sample(&self, rng: &mut Rng) -> (p: Vec3)
        ensures
            ({
                let expected = defocus_sample_spec(*self, old(rng).state);
                p == expected.0 && final(rng).state == expected.1
            }),
    {
        let offset = random_in_unit_disk(rng);
        self.origin.plus(
            &self.defocus_disc_u.scaled(offset.x).plus(&self.defocus_disc_v.scaled(offset.y)),
        )
    }

    /// The jittered, time-sampled ray for pixel `(x, y)` (see
    /// [`get_ray_spec`]).
    fn get_ray(&self, x: u32, y: u32, rng: &mut Rng) -> (r: Ray)
        ensures
            ({
                let expected = get_ray_spec(*self, x, y, old(rng).state);
                r == expected.0 && final(rng).state == expected.1
            }),
    {
        let offset_x = rng.next_jitter();
        let offset_y = rng.next_jitter();

        let px_sample = self.px_loc_100
            .plus(&self.px_delta_u.scaled(fx_add(fx_from_u32(x), offset_x)))
            .plus(&self.px_delta_v.scaled(fx_add(fx_from_u32(y), offset_y)));

        let ray_origin = if self.defocus_angle <= 0 {
            self.origin
        } else {
            self.defocus_disc_sample(rng)
        };
        let ray_direction = px_sample.minus(&ray_origin).normalized();

        let ray_time = rng.next_fx_unit();

        Ray::new(ray_origin, ray_direction, ray_time)
    }

    /// The radiance carried back along `ray` with `depth` bounces left
    /// (see [`ray_colour_spec`]). With no bounce budget the result is
    /// black whatever the ray and scene.
    pub fn ray_colour(ray: &Ray, depth: u32, world: &HittableList, rng: &mut Rng) -> (res: Vec3)
        ensures
            ({
                let expected = ray_colour_spec(
                    world.objects@,
                    world.materials@,
                    *ray,
                    depth,
                    old(rng).state,
                );
                res == expected.0 && final(rng).state == expected.1
            }),
            depth == 0 ==> res == (Vec3 { x: 0i64, y: 0i64, z: 0i64 }),
        decreases depth,
    {
        if depth == 0 {
            return Vec3::zero();
        }

        let rec_option = world.hit(ray, T_EPS, FX_MAX);

        match rec_option {
            Some(rec) => {
                if rec.material < world.materials.len() {
                    let material = world.materials[rec.material];
                    let scattered = material.scatter(ray, &rec, rng);
                    match scattered {
                        Some((scattered_ray, col)) => {
                            let rest = Camera::ray_colour(&scattered_ray, depth - 1, world, rng);
                            col.hadamard(&rest)
                        },
                        None => Vec3::zero(),
                    }
                } else {
                    Vec3::zero()
                }
            },
            None => {
                let unit_dir = ray.direction.normalized();
                let a = fx_mul(FX_HALF, fx_add(unit_dir.y, FX_ONE));
                Vec3::one().scaled(fx_sub(FX_ONE, a)).plus(&Vec3::new(32768, 45875, FX_ONE).scaled(a))
            },
        }
    }

    /// The three tone-mapped channels of pixel `(x, y)`: the mean of
    /// `px_samples` sample radiances drawn from the pixel's own seeded
    /// stream (see [`render_pixel_spec`]).
    #[verifier::loop_isolation(false)]
    fn render_px(&self, world: &HittableList, seed: u64, x: u32, y: u32) -> (px: (u8, u8, u8))
        ensures
            px == render_pixel_spec(*self, world.objects@, world.materials@, seed, x, y),
    {
        proof {
            reveal(render_pixel_spec);
            assert((y as int) * (self.width as int) + (x as int) < 0x1_0000_0000_0000_0000)
                by (nonlinear_arith)
                requires
                    y < 0x1_0000_0000,
                    x < 0x1_0000_0000,
                    self.width < 0x1_0000_0000;
        }
        let mut mixer = Rng::seeded(seed ^ ((y as u64) * (self.width as u64) + (x as u64)));
        let s0 = mixer.next_u64();
        let mut prng = Rng::seeded(s0);

        let mut acc = Vec3::zero();
        let mut remaining = self.px_samples;
        while remaining > 0
            invariant
                sample_accum(
                    world.objects@,
                    world.materials@,
                    *self,
                    x,
                    y,
                    self.px_samples,
                    s0,
                    Vec3 { x: 0, y: 0, z: 0 },
                ) == sample_accum(
                    world.objects@,
                    world.materials@,
                    *self,
                    x,
                    y,
                    remaining,
                    prng.state,
                    acc,
                ),
            decreases remaining,
        {
            let sample_ray = self.get_ray(x, y, &mut prng);
            let colour = Camera::ray_colour(&sample_ray, self.max_depth, world, &mut prng);
            acc = acc.plus(&colour);
            remaining = remaining - 1;
        }

        let col = acc.scaled(self.px_samples_scale);
        (to_channel(col.x), to_channel(col.y), to_channel(col.z))
    }

    /// Render the scene into the framebuffer: for every pixel in scan
    /// order, average `px_samples` sample radiances drawn from that
    /// pixel's own seeded stream, tone-map, and write the three channels.
    /// The result is a pure function of the camera configuration, the
    /// scene and the seed.
    #[verifier::loop_isolation(false)]
    #[verifier::rlimit(100)]
    pub fn render(&mut self, world: &HittableList, seed: u64)
        ensures
            same_config(*old(self), *final(self)),
            final(self).image@.len() == 3 * ((old(self).width as int) * (old(self).height as int)),
            forall|x: u32, y: u32|
                x < old(self).width && y < old(self).height ==> #[trigger] pixel_ok(
                    final(self).image@,
                    *old(self),
                    world.objects@,
                    world.materials@,
                    seed,
                    x,
                    y,
                ),
    {
        let mut buf: Vec<u8> = Vec::new();
        let mut y: u32 = 0;
        while y < self.height
            invariant
                y <= self.height,
                buf@.len() == 3 * ((y as int) * (self.width as int)),
                forall|xx: u32, yy: u32|
                    xx < self.width && yy < y ==> #[trigger] pixel_ok(
                        buf@,
                        *self,
                        world.objects@,
                        world.materials@,
                        seed,
                        xx,
                        yy,
                    ),
            decreases self.height - y,
        {
            let mut x: u32 = 0;
            while x < self.width
                invariant
                    y < self.height,
                    x <= self.width,
                    buf@.len() == 3 * ((y as int) * (self.width as int) + (x as int)),
                    forall|xx: u32, yy: u32|
                        xx < self.width && yy < y ==> #[trigger] pixel_ok(
                            buf@,
                            *self,
                            world.objects@,
                            world.materials@,
                            seed,
                            xx,
                            yy,
                        ),
                    forall|xx: u32|
                        xx < x ==> #[trigger] pixel_ok(
                            buf@,
                            *self,
                            world.objects@,
                            world.materials@,
                            seed,
                            xx,
                            y,
                        ),
                decreases self.width - x,
            {
                let px = self.render_px(world, seed, x, y);
                let ghost prev = buf@;
                buf.push(px.0);
                buf.push(px.1);
                buf.push(px.2);
                proof {
                    let w = self.width;
                    let objs = world.objects@;
                    let mats = world.materials@;
                    assert(pixel_ok(buf@, *self, objs, mats, seed, x, y));
                    assert forall|xx: u32, yy: u32| xx < w && yy < y implies #[trigger] pixel_ok(
                        buf@,
                        *self,
                        objs,
                        mats,
                        seed,
                        xx,
                        yy,
                    ) by {
                        assert(pixel_ok(prev, *self, objs, mats, seed, xx, yy));
                        assert(3 * ((yy as int) * (w as int) + (xx as int)) + 2 < prev.len())
                            by (nonlinear_arith)
                            requires
                                yy < y,
                                xx < w,
                                prev.len() == 3 * ((y as int) * (w as int) + (x as int));
                    }
                    assert forall|xx: u32| xx < x implies #[trigger] pixel_ok(
                        buf@,
                        *self,
                        objs,
                        mats,
                        seed,
                        xx,
                        y,
                    ) by {
                        assert(pixel_ok(prev, *self, objs, mats, seed, xx, y));
                    }
                }
                x = x + 1;
            }
            proof {
                assert(((y + 1) as int) * (self.width as int) == (y as int) * (self.width as int)
                    + (self.width as int)) by (nonlinear_arith);
            }
            y = y + 1;
        }
        proof {
            assert((self.height as int) * (self.width as int) == (self.width as int) * (
            self.height as int)) by (nonlinear_arith);
        }
        self.image = buf;
    }
}

/// The sum of a pixel's sample radiances depends only on the camera's
/// configuration, never on its framebuffer.
proof fn lemma_sample_accum_config(
    c1: Camera,
    c2: Camera,
    objs: Seq<Hittable>,
    mats: Seq<Material>,
    x: u32,
    y: u32,
    remaining: u32,
    s: u64,
    acc: Vec3,
)
    requires
        same_config(c1, c2),
    ensures
        sample_accum(objs, mats, c1, x, y, remaining, s, acc) == sample_accum(
            objs,
            mats,
            c2,
            x,
            y,
            remaining,
            s,
            acc,
        ),
    decreases remaining,
{
    if remaining > 0 {
        assert(get_ray_spec(c1, x, y, s) == get_ray_spec(c2, x, y, s));
        let gr = get_ray_spec(c1, x, y, s);
        let rc = ray_colour_spec(objs, mats, gr.0, c1.max_depth, gr.1);
        lemma_sample_accum_config(
            c1,
            c2,
            objs,
            mats,
            x,
            y,
            (remaining - 1) as u32,
            rc.1,
            v_add(acc, rc.0),
        );
    }
}

/// Rendering is deterministic: a pixel depends only on the camera's
/// configuration, the scene and the seed, so two renders of equal scenes
/// and setups with the same seed agree pixel for pixel.
pub proof fn lemma_render_deterministic(
    c1: Camera,
    c2: Camera,
    objs: Seq<Hittable>,
    mats: Seq<Material>,
    seed: u64,
    x: u32,
    y: u32,
)
    requires
        same_config(c1, c2),
    ensures
        render_pixel_spec(c1, objs, mats, seed, x, y) == render_pixel_spec(
            c2,
            objs,
            mats,
            seed,
            x,
            y,
        ),
{
    reveal(render_pixel_spec);
    let s0 = pixel_stream_seed(seed, x, y, c1.width);
    lemma_sample_accum_config(
        c1,
        c2,
        objs,
        mats,
        x,
        y,
        c1.px_samples,
        s0,
        Vec3 { x: 0, y: 0, z: 0 },
    );
}

} // verus!
