use raytrace::hittable::{HitRecord, Hittable};
use raytrace::hittable_list::HittableList;
use raytrace::material::{Lambertian, Material};
use raytrace::ray::Ray;
use raytrace::sphere::Sphere;
use raytrace::vec3::{Vec3, dot};

fn b(x: f64) -> u64 {
    x.to_bits()
}

fn f(x: u64) -> f64 {
    f64::from_bits(x)
}

fn v3(x: f64, y: f64, z: f64) -> Vec3 {
    Vec3::new(x.to_bits(), y.to_bits(), z.to_bits())
}

fn gray() -> Material {
    Material::Lambertian(Lambertian::new(v3(0.5, 0.5, 0.5)))
}

fn hit_t(s: &Sphere, r: &Ray, t_min: f64, t_max: f64) -> Option<f64> {
    let mut rec = HitRecord::new();
    if s.hit(r, b(t_min), b(t_max), &mut rec) {
        Some(f(rec.t))
    } else {
        None
    }
}

#[test]
fn test_sphere_hit_takes_nearer_root() {
    let s = Sphere::new(v3(0.0, 0.0, -1.0), b(0.5), gray());
    let r = Ray::new(v3(0.0, 0.0, 0.0), v3(0.0, 0.0, -1.0));
    assert_eq!(hit_t(&s, &r, 0.001, f64::INFINITY), Some(0.5));
}

#[test]
fn test_sphere_hit_takes_farther_root_from_inside() {
    let s = Sphere::new(v3(0.0, 0.0, -1.0), b(0.5), gray());
    // The ray starts at the center: the nearer root is negative and is
    // rejected, the farther one is returned.
    let r = Ray::new(v3(0.0, 0.0, -1.0), v3(0.0, 0.0, -1.0));
    assert_eq!(hit_t(&s, &r, 0.001, f64::INFINITY), Some(0.5));
}

#[test]
fn test_sphere_miss_and_interval_rejection() {
    let s = Sphere::new(v3(0.0, 0.0, -1.0), b(0.5), gray());
    let away = Ray::new(v3(0.0, 0.0, 0.0), v3(0.0, 1.0, 0.0));
    assert_eq!(hit_t(&s, &away, 0.001, f64::INFINITY), None);
    let toward = Ray::new(v3(0.0, 0.0, 0.0), v3(0.0, 0.0, -1.0));
    // Both roots (0.5 and 1.5) fall outside the open interval.
    assert_eq!(hit_t(&s, &toward, 1.5, f64::INFINITY), None);
    assert_eq!(hit_t(&s, &toward, 0.001, 0.5), None);
}

/// A returned hit lies on the sphere surface: |ray.at(t) - center| equals
/// the radius within tolerance.
#[test]
fn test_hit_point_is_on_surface() {
    let center = v3(0.3, -0.2, -2.0);
    let radius = 0.7;
    let s = Sphere::new(center, b(radius), gray());
    let rays = [
        Ray::new(v3(0.0, 0.0, 0.0), v3(0.15, -0.1, -1.0)),
        Ray::new(v3(0.1, 0.2, 0.0), v3(0.05, -0.15, -0.9)),
        Ray::new(v3(0.3, -0.2, -2.0), v3(1.0, 2.0, 3.0)),
    ];
    for r in rays {
        let mut rec = HitRecord::new();
        assert!(s.hit(&r, b(0.001), b(f64::INFINITY), &mut rec));
        let dist = f(r.at(rec.t).sub(center).length());
        assert!((dist - radius).abs() < 1.0e-9, "{dist}");
    }
}

/// The stored normal is unit length and faces against the incoming ray.
#[test]
fn test_hit_normal_is_unit_and_faces_ray() {
    let s = Sphere::new(v3(0.0, 0.0, -1.0), b(0.5), gray());
    let rays = [
        Ray::new(v3(0.0, 0.0, 0.0), v3(0.0, 0.0, -1.0)),
        Ray::new(v3(0.2, 0.1, 0.0), v3(-0.1, 0.0, -1.0)),
        // From inside: the outward normal is flipped.
        Ray::new(v3(0.0, 0.0, -1.0), v3(0.3, 0.4, 0.5)),
    ];
    for r in rays {
        let mut rec = HitRecord::new();
        assert!(s.hit(&r, b(0.001), b(f64::INFINITY), &mut rec));
        assert!((f(rec.normal.length()) - 1.0).abs() < 1.0e-9);
        assert!(f(dot(r.direction(), rec.normal)) <= 0.0);
    }
    // Outside hits strike the front face, inside hits the back face.
    let mut rec = HitRecord::new();
    let outside = Ray::new(v3(0.0, 0.0, 0.0), v3(0.0, 0.0, -1.0));
    assert!(s.hit(&outside, b(0.001), b(f64::INFINITY), &mut rec));
    assert!(rec.front_face);
    let inside = Ray::new(v3(0.0, 0.0, -1.0), v3(0.0, 0.0, -1.0));
    assert!(s.hit(&inside, b(0.001), b(f64::INFINITY), &mut rec));
    assert!(!rec.front_face);
}

/// The scene scan returns the globally nearest hit among two overlapping
/// spheres, in either insertion order.
#[test]
fn test_scene_returns_nearest_of_two_overlapping_spheres() {
    let near = Sphere::new(v3(0.0, 0.0, -1.0), b(0.5), gray());
    let far = Sphere::new(v3(0.0, 0.0, -1.2), b(0.5), gray());
    let r = Ray::new(v3(0.0, 0.0, 0.0), v3(0.0, 0.0, -1.0));

    let t_near = hit_t(&near, &r, 0.001, f64::INFINITY).unwrap();
    let t_far = hit_t(&far, &r, 0.001, f64::INFINITY).unwrap();
    assert_eq!(t_near, 0.5);
    assert!((t_far - 0.7).abs() < 1.0e-12);
    let t_min = t_near.min(t_far);

    for order in 0..2 {
        let mut world = HittableList::new();
        if order == 0 {
            world.add(near);
            world.add(far);
        } else {
            world.add(far);
            world.add(near);
        }
        let mut rec = HitRecord::new();
        assert!(world.hit(&r, b(0.001), b(f64::INFINITY), &mut rec));
        assert_eq!(f(rec.t), t_min);
    }
}

/// Insertion order never changes which parameter the scene returns: three
/// overlapping spheres in every permutation give the same nearest t.
#[test]
fn test_scene_nearest_is_order_independent() {
    let spheres = [
        Sphere::new(v3(0.0, 0.0, -2.0), b(0.5), gray()),
        Sphere::new(v3(0.1, 0.0, -1.6), b(0.5), gray()),
        Sphere::new(v3(-0.1, 0.0, -2.4), b(0.7), gray()),
    ];
    let r = Ray::new(v3(0.0, 0.0, 0.0), v3(0.0, 0.0, -1.0));
    let expected = spheres
        .iter()
        .filter_map(|s| hit_t(s, &r, 0.001, f64::INFINITY))
        .fold(f64::INFINITY, f64::min);
    let orders = [[0, 1, 2], [0, 2, 1], [1, 0, 2], [1, 2, 0], [2, 0, 1], [2, 1, 0]];
    for order in orders {
        let mut world = HittableList::new();
        for k in order {
            world.add(spheres[k]);
        }
        let mut rec = HitRecord::new();
        assert!(world.hit(&r, b(0.001), b(f64::INFINITY), &mut rec));
        assert_eq!(f(rec.t), expected);
    }
}

#[test]
fn test_empty_scene_misses() {
    let world = HittableList::new();
    let r = Ray::new(v3(0.0, 0.0, 0.0), v3(0.0, 0.0, -1.0));
    let mut rec = HitRecord::new();
    assert!(!world.hit(&r, b(0.001), b(f64::INFINITY), &mut rec));
    assert_eq!(world.len(), 0);
}

#[test]
fn test_ray_at_evaluates_the_parametric_line() {
    let r = Ray::new(v3(1.0, 2.0, 3.0), v3(0.5, -1.0, 2.0));
    let p = r.at(b(2.0));
    assert_eq!(f(p.x()), 2.0);
    assert_eq!(f(p.y()), 0.0);
    assert_eq!(f(p.z()), 7.0);
    assert_eq!(f(r.origin().x()), 1.0);
    assert_eq!(f(r.direction().z()), 2.0);
}
