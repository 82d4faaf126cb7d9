use raytrace::hittable::HitRecord;
use raytrace::material::{Lambertian, Metal, Dielectric, Material};
use raytrace::ray::Ray;
use raytrace::rng::Rng;
use raytrace::vec3::{Vec3, dot, reflect, unit_vector};

fn b(x: f64) -> u64 {
    x.to_bits()
}

fn f(x: u64) -> f64 {
    f64::from_bits(x)
}

fn v3(x: f64, y: f64, z: f64) -> Vec3 {
    Vec3::new(x.to_bits(), y.to_bits(), z.to_bits())
}

fn comps(v: Vec3) -> (f64, f64, f64) {
    (f64::from_bits(v.x()), f64::from_bits(v.y()), f64::from_bits(v.z()))
}

fn record(p: Vec3, normal: Vec3, t: f64, front_face: bool) -> HitRecord {
    HitRecord { p, normal, t: b(t), front_face, mat: None }
}

/// Lambertian scattering always succeeds, for any incident ray and normal.
#[test]
fn test_lambertian_always_scatters() {
    let albedo = v3(0.1, 0.2, 0.5);
    let lam = Lambertian::new(albedo);
    let mut rng = Rng::new(11);
    let normals = [
        v3(0.0, 1.0, 0.0),
        v3(0.0, -1.0, 0.0),
        v3(1.0, 0.0, 0.0),
        unit_vector(v3(1.0, 1.0, 1.0)),
        unit_vector(v3(-0.3, 0.8, -0.5)),
    ];
    for n in normals {
        for _ in 0..40 {
            let r_in = Ray::new(v3(0.0, 2.0, 0.0), v3(0.1, -1.0, 0.2));
            let rec = record(v3(0.3, 0.0, -0.7), n, 1.0, true);
            let mut attenuation = v3(0.0, 0.0, 0.0);
            let mut scattered = Ray::new(v3(0.0, 0.0, 0.0), v3(0.0, 0.0, 0.0));
            let ok = lam.scatter(&r_in, &rec, &mut attenuation, &mut scattered, &mut rng);
            assert!(ok);
            assert_eq!(comps(attenuation), comps(albedo));
            assert_eq!(comps(scattered.origin()), comps(rec.p));
            // The scatter direction is never degenerate.
            assert!(!scattered.direction().near_zero());
        }
    }
}

/// Metal with zero fuzz is purely specular: the scattered direction equals
/// the mirror reflection of the unit incident direction exactly.
#[test]
fn test_metal_zero_fuzz_is_specular() {
    let met = Metal::new(v3(0.8, 0.4, 0.1), b(0.0));
    let mut rng = Rng::new(21);
    let r_in = Ray::new(v3(-1.0, 1.0, 0.0), v3(1.0, -1.0, 0.0));
    let normal = v3(0.0, 1.0, 0.0);
    let rec = record(v3(0.0, 0.0, 0.0), normal, 1.0, true);
    let mut attenuation = v3(0.0, 0.0, 0.0);
    let mut scattered = Ray::new(v3(0.0, 0.0, 0.0), v3(0.0, 0.0, 0.0));
    let ok = met.scatter(&r_in, &rec, &mut attenuation, &mut scattered, &mut rng);
    assert!(ok);
    let expected = reflect(unit_vector(r_in.direction()), normal);
    assert_eq!(comps(scattered.direction()), comps(expected));
    assert_eq!(comps(attenuation), (0.8, 0.4, 0.1));
}

/// A grazing reflection does not leave the surface: the metal reports
/// absorption.
#[test]
fn test_metal_absorbs_grazing_ray() {
    let met = Metal::new(v3(0.8, 0.8, 0.8), b(0.0));
    let mut rng = Rng::new(22);
    let r_in = Ray::new(v3(-1.0, 0.0, 0.0), v3(1.0, 0.0, 0.0));
    let rec = record(v3(0.0, 0.0, 0.0), v3(0.0, 1.0, 0.0), 1.0, true);
    let mut attenuation = v3(0.0, 0.0, 0.0);
    let mut scattered = Ray::new(v3(0.0, 0.0, 0.0), v3(0.0, 0.0, 0.0));
    let ok = met.scatter(&r_in, &rec, &mut attenuation, &mut scattered, &mut rng);
    assert!(!ok);
}

#[test]
fn test_metal_fuzz_is_clamped() {
    assert_eq!(f(Metal::new(v3(1.0, 1.0, 1.0), b(3.0)).fuzz), 1.0);
    assert_eq!(f(Metal::new(v3(1.0, 1.0, 1.0), b(-0.5)).fuzz), 0.0);
    assert_eq!(f(Metal::new(v3(1.0, 1.0, 1.0), b(0.25)).fuzz), 0.25);
}

/// A dielectric with refraction index 1 refracts straight through: the
/// scattered direction equals the unit incident direction.
#[test]
fn test_dielectric_index_one_passes_straight_through() {
    let glass = Dielectric::new(b(1.0));
    let mut rng = Rng::new(31);
    // Head-on: the Schlick reflectance is exactly zero, so refraction is
    // certain.
    let r_in = Ray::new(v3(0.0, 0.0, 1.0), v3(0.0, 0.0, -2.0));
    let rec = record(v3(0.0, 0.0, 0.0), v3(0.0, 0.0, 1.0), 1.0, true);
    let mut attenuation = v3(0.0, 0.0, 0.0);
    let mut scattered = Ray::new(v3(0.0, 0.0, 0.0), v3(0.0, 0.0, 0.0));
    let ok = glass.scatter(&r_in, &rec, &mut attenuation, &mut scattered, &mut rng);
    assert!(ok);
    assert_eq!(comps(attenuation), (1.0, 1.0, 1.0));
    assert_eq!(comps(scattered.direction()), (0.0, 0.0, -1.0));

    // Oblique: refraction at ratio 1 keeps the unit direction, when the
    // Schlick draw picks refraction; mirror the draw to know which branch
    // runs.
    let s = 0.5_f64.sqrt();
    let r_in = Ray::new(v3(-s, s, 0.0), v3(2.0 * s, -2.0 * s, 0.0));
    let rec = record(v3(0.0, 0.0, 0.0), v3(0.0, 1.0, 0.0), 1.0, true);
    let mut probe = Rng::new(41);
    let draw = f(probe.next_double());
    let reflectance = (1.0 - s).powi(5);
    let mut rng = Rng::new(41);
    let ok = glass.scatter(&r_in, &rec, &mut attenuation, &mut scattered, &mut rng);
    assert!(ok);
    let (x, y, z) = comps(scattered.direction());
    if draw < reflectance {
        // The rare reflection branch.
        assert!((x - s).abs() < 1.0e-9 && (y - s).abs() < 1.0e-9 && z.abs() < 1.0e-9);
    } else {
        // Unbent passage.
        assert!((x - s).abs() < 1.0e-9 && (y + s).abs() < 1.0e-9 && z.abs() < 1.0e-9);
    }
}

/// Total internal reflection forces the mirror branch and takes no random
/// draw at all.
#[test]
fn test_dielectric_total_internal_reflection() {
    let glass = Dielectric::new(b(1.5));
    let mut rng = Rng::new(51);
    let state_before = rng.state;
    // Leaving the glass (back face) at a grazing angle: sin_theta * 1.5
    // exceeds 1.
    let ux = 0.9848;
    let uz = -(1.0_f64 - ux * ux).sqrt();
    let r_in = Ray::new(v3(0.0, 0.0, 1.0), v3(ux, 0.0, uz));
    let rec = record(v3(0.0, 0.0, 0.0), v3(0.0, 0.0, 1.0), 1.0, false);
    let mut attenuation = v3(0.0, 0.0, 0.0);
    let mut scattered = Ray::new(v3(0.0, 0.0, 0.0), v3(0.0, 0.0, 0.0));
    let ok = glass.scatter(&r_in, &rec, &mut attenuation, &mut scattered, &mut rng);
    assert!(ok);
    assert_eq!(rng.state, state_before);
    let expected = reflect(unit_vector(r_in.direction()), rec.normal);
    assert_eq!(comps(scattered.direction()), comps(expected));
}

/// The dispatching enum hands each variant its own rule and attenuation.
#[test]
fn test_material_dispatch() {
    let mut rng = Rng::new(61);
    let rec = record(v3(0.0, 0.0, 0.0), v3(0.0, 1.0, 0.0), 1.0, true);
    let r_in = Ray::new(v3(0.0, 1.0, 0.0), v3(0.2, -1.0, 0.0));
    let mut attenuation = v3(0.0, 0.0, 0.0);
    let mut scattered = Ray::new(v3(0.0, 0.0, 0.0), v3(0.0, 0.0, 0.0));

    let lam = Material::Lambertian(Lambertian::new(v3(0.2, 0.8, 0.5)));
    assert!(lam.scatter(&r_in, &rec, &mut attenuation, &mut scattered, &mut rng));
    assert_eq!(comps(attenuation), (0.2, 0.8, 0.5));

    let met = Material::Metal(Metal::new(v3(0.9, 0.6, 0.3), b(0.0)));
    assert!(met.scatter(&r_in, &rec, &mut attenuation, &mut scattered, &mut rng));
    assert_eq!(comps(attenuation), (0.9, 0.6, 0.3));
    assert!(f(dot(scattered.direction(), rec.normal)) > 0.0);

    let glass = Material::Dielectric(Dielectric::new(b(1.5)));
    assert!(glass.scatter(&r_in, &rec, &mut attenuation, &mut scattered, &mut rng));
    assert_eq!(comps(attenuation), (1.0, 1.0, 1.0));
}
