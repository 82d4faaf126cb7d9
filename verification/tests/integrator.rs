use raytrace::camera::{Camera, degrees_to_radians};
use raytrace::color::get_color_rgb;
use raytrace::hittable::{HitRecord, Hittable};
use raytrace::hittable_list::HittableList;
use raytrace::material::{Lambertian, Material};
use raytrace::ray::Ray;
use raytrace::render::{ray_color, render_pixel, render};
use raytrace::rng::Rng;
use raytrace::sphere::Sphere;
use raytrace::vec3::Vec3;

fn b(x: f64) -> u64 {
    x.to_bits()
}

fn f(x: u64) -> f64 {
    f64::from_bits(x)
}

fn v3(x: f64, y: f64, z: f64) -> Vec3 {
    Vec3::new(x.to_bits(), y.to_bits(), z.to_bits())
}

fn comps(v: Vec3) -> (f64, f64, f64) {
    (f64::from_bits(v.x()), f64::from_bits(v.y()), f64::from_bits(v.z()))
}

fn sky() -> Vec3 {
    v3(0.0, 0.3, 0.8)
}

fn one_sphere_world() -> HittableList {
    let mut world = HittableList::new();
    world.add(Sphere::new(
        v3(0.0, 0.0, -1.0),
        b(0.5),
        Material::Lambertian(Lambertian::new(v3(0.1, 0.2, 0.5))),
    ));
    world
}

/// Exhausted depth is exactly black, whatever the ray and scene.
#[test]
fn test_ray_color_depth_zero_is_black() {
    let world = one_sphere_world();
    let mut rng = Rng::new(1);
    let rays = [
        Ray::new(v3(0.0, 0.0, 0.0), v3(0.0, 0.0, -1.0)),
        Ray::new(v3(1.0, 2.0, 3.0), v3(0.0, 1.0, 0.0)),
    ];
    for r in rays {
        for depth in [0, -1, -10] {
            let c = ray_color(&r, &world, sky(), depth, &mut rng);
            assert_eq!(comps(c), (0.0, 0.0, 0.0));
        }
    }
}

/// A miss returns the exact background gradient: the sky color straight up
/// at the zenith, white straight down, their blend in between.
#[test]
fn test_ray_color_miss_is_background_gradient() {
    let world = HittableList::new();
    let mut rng = Rng::new(1);

    let up = Ray::new(v3(0.0, 0.0, 0.0), v3(0.0, 1.0, 0.0));
    assert_eq!(comps(ray_color(&up, &world, sky(), 10, &mut rng)), (0.0, 0.3, 0.8));

    let down = Ray::new(v3(0.0, 0.0, 0.0), v3(0.0, -1.0, 0.0));
    assert_eq!(comps(ray_color(&down, &world, sky(), 10, &mut rng)), (1.0, 1.0, 1.0));

    // Level with the horizon: the even blend of white and sky.
    let level = Ray::new(v3(0.0, 0.0, 0.0), v3(1.0, 0.0, 0.0));
    let expected = (0.5 + 0.5 * 0.0, 0.5 + 0.5 * 0.3, 0.5 + 0.5 * 0.8);
    assert_eq!(comps(ray_color(&level, &world, sky(), 10, &mut rng)), expected);
}

/// A hit whose bounce exhausts the depth contributes black: the albedo
/// multiplies the black of the depth-zero recursion.
#[test]
fn test_ray_color_hit_at_depth_one_is_black() {
    let world = one_sphere_world();
    let mut rng = Rng::new(5);
    let r = Ray::new(v3(0.0, 0.0, 0.0), v3(0.0, 0.0, -1.0));
    let c = ray_color(&r, &world, sky(), 1, &mut rng);
    assert_eq!(comps(c), (0.0, 0.0, 0.0));
}

/// The end-to-end scenario: one small sphere in front of a large ground
/// sphere, a 90-degree camera; the ray through the viewport center strikes
/// the small sphere, not the ground, and its color is not the background.
#[test]
fn test_center_pixel_hits_foreground_sphere() {
    let mut world = HittableList::new();
    world.add(Sphere::new(
        v3(0.0, 0.0, -1.0),
        b(0.5),
        Material::Lambertian(Lambertian::new(v3(0.1, 0.2, 0.5))),
    ));
    world.add(Sphere::new(
        v3(0.0, -100.5, -1.0),
        b(100.0),
        Material::Lambertian(Lambertian::new(v3(0.8, 0.8, 0.0))),
    ));
    let cam = Camera::new(b(90.0), b(16.0 / 9.0));

    let center = cam.get_ray(b(0.5), b(0.5));
    let (dx, dy, dz) = comps(center.direction());
    assert!(dx.abs() < 1.0e-12 && dy.abs() < 1.0e-12 && (dz + 1.0).abs() < 1.0e-12);

    // The nearest hit is the foreground sphere, at t close to 0.5.
    let mut rec = HitRecord::new();
    assert!(world.hit(&center, b(0.001), b(f64::INFINITY), &mut rec));
    assert!((f(rec.t) - 0.5).abs() < 1.0e-9);

    // With one bounce the diffuse hit comes back black, which no
    // background ray ever is.
    let mut rng = Rng::new(9);
    let c = ray_color(&center, &world, sky(), 1, &mut rng);
    let background = ray_color(&center, &HittableList::new(), sky(), 1, &mut rng);
    assert_eq!(comps(c), (0.0, 0.0, 0.0));
    assert!(comps(background) != comps(c));

    // The same pixel through the sampling loop, one sample, depth one.
    let mut rng = Rng::new(9);
    let rgb = render_pixel(&cam, &world, sky(), 100, 56, 201, 113, 1, 1, &mut rng);
    assert_eq!(rgb, (0, 0, 0));
}

/// Pixel finalization: averaged, gamma-corrected, clamped, byte-scaled.
#[test]
fn test_get_color_rgb_values() {
    // One sample: sqrt then scale; 0.25 -> 0.5 -> 128, bright channels
    // clamp at 0.999 -> 255.
    assert_eq!(get_color_rgb(v3(0.25, 1.0, 4.0), 1), (128, 255, 255));
    // Four samples of accumulated 1.0 average to 0.25.
    assert_eq!(get_color_rgb(v3(1.0, 1.0, 1.0), 4), (128, 128, 128));
    // Negatives clamp to zero.
    assert_eq!(get_color_rgb(v3(-1.0, 0.0, 0.0), 1), (0, 0, 0));
    // An exact mid value: sqrt(0.0625) = 0.25 -> 64.
    assert_eq!(get_color_rgb(v3(0.0625, 0.0625, 0.0625), 1), (64, 64, 64));
}

/// The derived viewport: a 90-degree field of view spans height 2 at unit
/// focal distance.
#[test]
fn test_camera_viewport_geometry() {
    let aspect = 16.0 / 9.0;
    let cam = Camera::new(b(90.0), b(aspect));
    let (hx, hy, hz) = comps(cam.horizontal);
    let (vx, vy, vz) = comps(cam.vertical);
    assert!((hy, hz) == (0.0, 0.0) && (vx, vz) == (0.0, 0.0));
    assert!((vy - 2.0).abs() < 1.0e-12);
    assert!((hx - 2.0 * aspect).abs() < 1.0e-12);
    let (lx, ly, lz) = comps(cam.lower_left_corner);
    assert!((lx + aspect).abs() < 1.0e-12);
    assert!((ly + 1.0).abs() < 1.0e-12);
    assert!((lz + 1.0).abs() < 1.0e-12);
    // The corner rays span the viewport.
    let corner = cam.get_ray(b(0.0), b(0.0));
    let (cx, cy, cz) = comps(corner.direction());
    assert!((cx - lx).abs() < 1.0e-12 && (cy - ly).abs() < 1.0e-12 && (cz - lz).abs() < 1.0e-12);
}

/// A seed determines the whole render: the generator is reproducible, and
/// its unit draws stay in range.
#[test]
fn test_rng_is_reproducible_and_in_range() {
    let mut a = Rng::new(42);
    let mut c = Rng::new(42);
    for _ in 0..100 {
        let x = f(a.next_double());
        let y = f(c.next_double());
        assert_eq!(x, y);
        assert!((0.0..1.0).contains(&x));
    }
    // A zero seed still yields a working generator.
    let mut z = Rng::new(0);
    let x = f(z.next_double());
    assert!((0.0..1.0).contains(&x));
}

/// The same seed renders the same image: every draw is threaded through
/// the explicit generator, so nothing else can perturb a render.
#[test]
fn test_render_is_reproducible_from_seed() {
    let world = one_sphere_world();
    let cam = Camera::new(b(90.0), b(16.0 / 9.0));
    let mut rng1 = Rng::new(7);
    let mut rng2 = Rng::new(7);
    let first = render(&cam, &world, sky(), 6, 4, 3, 4, &mut rng1);
    let second = render(&cam, &world, sky(), 6, 4, 3, 4, &mut rng2);
    assert_eq!(first, second);
    assert_eq!(rng1.state, rng2.state);
}

#[test]
fn test_degrees_to_radians_matches_the_formula() {
    for d in [0.0, 45.0, 90.0, 180.0, 271.5] {
        let expected = d * std::f64::consts::PI / 180.0;
        assert_eq!(f(degrees_to_radians(b(d))), expected);
    }
}

/// The full render emits one byte triple per pixel, row-major.
#[test]
fn test_render_emits_every_pixel() {
    let world = one_sphere_world();
    let cam = Camera::new(b(90.0), b(4.0 / 3.0));
    let mut rng = Rng::new(123);
    let pixels = render(&cam, &world, sky(), 4, 3, 2, 3, &mut rng);
    assert_eq!(pixels.len(), 12);
}
