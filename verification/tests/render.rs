//! Camera construction, tone mapping, the integrator, and whole renders.

use pathtracer::camera::{to_channel, Camera, CameraSetup, ConfigError};
use pathtracer::fx::FX_ONE;
use pathtracer::hittable::{Hittable, HittableList};
use pathtracer::material::{Lambertian, Material, Metal};
use pathtracer::ray::Ray;
use pathtracer::rng::Rng;
use pathtracer::sphere::{MovingSphere, Sphere};
use pathtracer::vec3::Vec3;

fn small_setup() -> CameraSetup {
    CameraSetup::new(
        4,                              // image height
        FX_ONE,                         // square aspect ratio
        2,                              // samples per pixel
        4,                              // max bounce depth
        FX_ONE,                         // about 57 degrees of vertical fov
        Vec3::new(0, 0, 2 * FX_ONE),    // look from
        Vec3::new(0, 0, 0),             // look at
        Vec3::new(0, FX_ONE, 0),        // vertical up
        0,                              // no defocus
        2 * FX_ONE,                     // focus distance
    )
}

fn one_sphere_scene() -> HittableList {
    let mut scene = HittableList::new();
    let grey = scene.add_material(Material::Lambertian(Lambertian::new(Vec3::new(
        FX_ONE / 2,
        FX_ONE / 2,
        FX_ONE / 2,
    ))));
    scene.add(Hittable::Sphere(Sphere::new(Vec3::new(0, 0, 0), FX_ONE, grey)));
    scene
}

#[test]
fn tone_map_boundaries() {
    // Radiance 1.0 lands on 255 even though the clamp ceiling is 0.999,
    // and radiance 0.0 lands on 0.
    assert_eq!(to_channel(FX_ONE), 255);
    assert_eq!(to_channel(0), 0);
    assert_eq!(to_channel(-3 * FX_ONE), 0);
    assert_eq!(to_channel(7 * FX_ONE), 255);
    // 0.25 gamma-corrects to 0.5: round(0.5 * 255) = 128.
    assert_eq!(to_channel(FX_ONE / 4), 128);
}

#[test]
fn init_accepts_default_setup() {
    let cam = Camera::init(&CameraSetup::default()).expect("the default setup is valid");
    assert_eq!(cam.height, 720);
    assert_eq!(cam.width, 1279); // 720 * (16/9 rounded down to 1.77777) truncated
    assert_eq!(cam.px_samples, 32);
    assert_eq!(cam.max_depth, 64);
    assert_eq!(cam.origin, Vec3::new(0, 0, 0));
    assert_eq!(cam.w, Vec3::new(0, 0, FX_ONE));
    assert!(cam.image.is_empty());
}

#[test]
fn init_rejects_each_bad_setup() {
    let good = small_setup();

    let mut s = good;
    s.image_height = 0;
    assert!(matches!(Camera::init(&s), Err(ConfigError::NonPositiveImageHeight)));

    s = good;
    s.image_height = 9000;
    assert!(matches!(Camera::init(&s), Err(ConfigError::ImageTooLarge)));

    s = good;
    s.aspect_ratio = 0;
    assert!(matches!(Camera::init(&s), Err(ConfigError::NonPositiveAspectRatio)));

    s = good;
    s.samples_per_px = 0;
    assert!(matches!(Camera::init(&s), Err(ConfigError::NoSamples)));

    s = good;
    s.vfov = 0;
    assert!(matches!(Camera::init(&s), Err(ConfigError::InvalidFieldOfView)));

    s = good;
    s.vfov = 206000;
    assert!(matches!(Camera::init(&s), Err(ConfigError::InvalidFieldOfView)));

    s = good;
    s.defocus_angle = -1;
    assert!(matches!(Camera::init(&s), Err(ConfigError::InvalidDefocusAngle)));

    s = good;
    s.focus_distance = 0;
    assert!(matches!(Camera::init(&s), Err(ConfigError::NonPositiveFocusDistance)));

    s = good;
    s.aspect_ratio = 1; // height * 2^-16: rounds to zero pixels wide
    assert!(matches!(Camera::init(&s), Err(ConfigError::ZeroImageWidth)));

    s = good;
    s.look_at = s.look_from;
    assert!(matches!(Camera::init(&s), Err(ConfigError::LookPointsCoincide)));

    s = good;
    s.vertical_up = Vec3::new(0, 0, FX_ONE); // parallel to the view axis
    assert!(matches!(Camera::init(&s), Err(ConfigError::DegenerateUpDirection)));
}

#[test]
fn ray_colour_depth_zero_is_black() {
    let scene = one_sphere_scene();
    let rays = [
        Ray::new(Vec3::new(0, 0, 2 * FX_ONE), Vec3::new(0, 0, -FX_ONE), 0),
        Ray::new(Vec3::new(0, 0, 2 * FX_ONE), Vec3::new(0, FX_ONE, 0), 0),
        Ray::new(Vec3::new(5, -7, 9), Vec3::new(FX_ONE, FX_ONE, FX_ONE), 11),
    ];
    for ray in rays.iter() {
        let mut rng = Rng::seeded(3);
        assert_eq!(
            Camera::ray_colour(ray, 0, &scene, &mut rng),
            Vec3::new(0, 0, 0)
        );
    }
}

#[test]
fn ray_colour_miss_is_sky_gradient() {
    let scene = HittableList::new();
    // Straight up: unit y is one, so the colour is exactly the sky blue.
    let up = Ray::new(Vec3::new(0, 0, 0), Vec3::new(0, FX_ONE, 0), 0);
    let mut rng = Rng::seeded(0);
    assert_eq!(
        Camera::ray_colour(&up, 8, &scene, &mut rng),
        Vec3::new(32768, 45875, FX_ONE)
    );
    // Horizontal: halfway between white and sky blue.
    let level = Ray::new(Vec3::new(0, 0, 0), Vec3::new(FX_ONE, 0, 0), 0);
    let col = Camera::ray_colour(&level, 8, &scene, &mut rng);
    assert_eq!(col, Vec3::new(49152, 55705, FX_ONE));
}

#[test]
fn ray_colour_absorbs_unknown_material_handle() {
    let mut scene = HittableList::new();
    // No materials in the arena: handle 0 is out of range and absorbs.
    scene.add(Hittable::Sphere(Sphere::new(Vec3::new(0, 0, 0), FX_ONE, 0)));
    let ray = Ray::new(Vec3::new(0, 0, 2 * FX_ONE), Vec3::new(0, 0, -FX_ONE), 0);
    let mut rng = Rng::seeded(3);
    assert_eq!(Camera::ray_colour(&ray, 8, &scene, &mut rng), Vec3::new(0, 0, 0));
}

#[test]
fn hemisphere_sampling_respects_the_normal() {
    let normal = Vec3::new(0, 0, FX_ONE);
    for seed in 0..32u64 {
        let mut rng = Rng::seeded(seed);
        let v = Camera::random_on_hemisphere(&normal, &mut rng);
        assert!(v.dot(&normal) >= 0);
    }
}

#[test]
fn render_fills_framebuffer() {
    let scene = one_sphere_scene();
    let mut cam = Camera::init(&small_setup()).expect("setup is valid");
    assert_eq!(cam.width, 4);
    cam.render(&scene, 42);
    assert_eq!(cam.image.len(), 3 * 4 * 4);
    // The scene is lit: at least one channel is not pure black.
    assert!(cam.image.iter().any(|&c| c > 0));
}

#[test]
fn render_with_defocus_and_motion() {
    let mut scene = one_sphere_scene();
    let shiny = scene.add_material(Material::Metal(Metal::new(
        Vec3::new(FX_ONE, FX_ONE, FX_ONE),
        FX_ONE / 4,
    )));
    scene.add(Hittable::MovingSphere(MovingSphere::new(
        Vec3::new(2 * FX_ONE, 0, 0),
        Vec3::new(2 * FX_ONE, FX_ONE / 2, 0),
        FX_ONE / 2,
        shiny,
    )));

    let mut setup = small_setup();
    setup.defocus_angle = 6554; // about 0.1 radian aperture
    let mut cam_a = Camera::init(&setup).expect("defocus setup is valid");
    let mut cam_b = Camera::init(&setup).expect("defocus setup is valid");
    cam_a.render(&scene, 7);
    cam_b.render(&scene, 7);
    assert_eq!(cam_a.image.len(), 3 * 4 * 4);
    assert_eq!(cam_a.image, cam_b.image);
}

#[test]
fn render_is_deterministic_for_a_seed() {
    let scene = one_sphere_scene();
    let mut cam_a = Camera::init(&small_setup()).expect("setup is valid");
    let mut cam_b = Camera::init(&small_setup()).expect("setup is valid");
    cam_a.render(&scene, 42);
    cam_b.render(&scene, 42);
    assert_eq!(cam_a.image, cam_b.image);

    // Rendering again with the same seed reproduces the frame.
    let first = cam_a.image.clone();
    cam_a.render(&scene, 42);
    assert_eq!(cam_a.image, first);
}
