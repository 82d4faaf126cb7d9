//! The sole primitive: a sphere, with the quadratic intersection test and
//! the nearest-root selection policy.

use vstd::prelude::*;

use crate::fp::{fp_lt, fp_le, fp_sqrt, fp_mul, fp_sub, fp_add, fp_div, fp_neg, lt_bits, le_bits,
    sqrt_bits, mul_bits, sub_bits, add_bits, div_bits, neg_bits, F_ZERO};
use crate::hittable::{HitRecord, Hittable};
use crate::material::Material;
use crate::ray::{Ray, spec_ray_at};
use crate::vec3::{Point3, dot, spec_sub, spec_div, spec_dot, spec_neg, spec_length_squared};

verus! {

/// A sphere: a center, a radius and the material its surface carries.
#[derive(Copy, Clone)]
pub struct Sphere {
    pub center: Point3,
    pub radius: u64,
    pub material: Material,
}

/// A root is accepted iff it falls strictly inside `(t_min, t_max)`; the
/// comparisons are the IEEE ones, so a NaN root is not rejected by them,
/// exactly as running the two rejection tests would leave it.
pub open spec fn spec_root_accepted(root: u64, t_min: u64, t_max: u64) -> bool {
    !le_bits(root, t_min) && !le_bits(t_max, root)
}

/// The discriminant of the ray/sphere quadratic, over the named operations:
/// `half_b^2 - a*c` for `a = |dir|^2`, `half_b = dot(oc, dir)`,
/// `c = |oc|^2 - radius^2`, `oc = origin - center`.
pub open spec fn spec_sphere_discriminant(s: Sphere, r: Ray) -> u64 {
    let oc = spec_sub(r.origin, s.center);
    let a = spec_length_squared(r.direction);
    let half_b = spec_dot(oc, r.direction);
    let c = sub_bits(spec_length_squared(oc), mul_bits(s.radius, s.radius));
    sub_bits(mul_bits(half_b, half_b), mul_bits(a, c))
}

/// The smaller-first candidate roots `(-half_b -+ sqrt(d)) / a`.
pub open spec fn spec_sphere_root1(s: Sphere, r: Ray) -> u64 {
    let oc = spec_sub(r.origin, s.center);
    let a = spec_length_squared(r.direction);
    let half_b = spec_dot(oc, r.direction);
    div_bits(sub_bits(neg_bits(half_b), sqrt_bits(spec_sphere_discriminant(s, r))), a)
}

/// The larger-second candidate root `(-half_b + sqrt(d)) / a`.
pub open spec fn spec_sphere_root2(s: Sphere, r: Ray) -> u64 {
    let oc = spec_sub(r.origin, s.center);
    let a = spec_length_squared(r.direction);
    let half_b = spec_dot(oc, r.direction);
    div_bits(add_bits(neg_bits(half_b), sqrt_bits(spec_sphere_discriminant(s, r))), a)
}

/// The root the test selects: the nearer candidate when it is accepted,
/// else the farther when that is, else nothing; and nothing at all when the
/// discriminant is negative.
pub open spec fn spec_sphere_root(s: Sphere, r: Ray, t_min: u64, t_max: u64) -> Option<u64> {
    if lt_bits(spec_sphere_discriminant(s, r), F_ZERO) {
        None
    } else if spec_root_accepted(spec_sphere_root1(s, r), t_min, t_max) {
        Some(spec_sphere_root1(s, r))
    } else if spec_root_accepted(spec_sphere_root2(s, r), t_min, t_max) {
        Some(spec_sphere_root2(s, r))
    } else {
        None
    }
}

/// The record built at root `t`: the point on the ray, the outward normal
/// `(p - center)/radius` oriented by the face-normal rule, and the sphere's
/// material.
pub open spec fn spec_sphere_record(s: Sphere, r: Ray, t: u64) -> HitRecord {
    let p = spec_ray_at(r, t);
    let outward = spec_div(spec_sub(p, s.center), s.radius);
    let front_face = lt_bits(spec_dot(r.direction, outward), F_ZERO);
    HitRecord {
        p,
        normal: if front_face {
            outward
        } else {
            spec_neg(outward)
        },
        t,
        front_face,
        mat: Some(s.material),
    }
}

/// What a sphere's hit test finds over `(t_min, t_max)`.
pub open spec fn spec_sphere_hit(s: Sphere, r: Ray, t_min: u64, t_max: u64) -> Option<HitRecord> {
    match spec_sphere_root(s, r, t_min, t_max) {
        Some(t) => Some(spec_sphere_record(s, r, t)),
        None => None,
    }
}

impl Sphere {
    /// A sphere of the given center, radius and material; the data model
    /// asks every caller for a positive radius.
    pub fn new(center: Point3, radius: u64, material: Material) -> (r: Sphere)
        requires
            lt_bits(F_ZERO, radius),
        ensures
            r == (Sphere { center, radius, material }),
    {
        Sphere { center, radius, material }
    }
}

impl Hittable for Sphere {
    open spec fn hit_spec(&self, r: Ray, t_min: u64, t_max: u64) -> Option<HitRecord> {
        spec_sphere_hit(*self, r, t_min, t_max)
    }

    fn hit(&self, r: &Ray, t_min: u64, t_max: u64, rec: &mut HitRecord) -> (b: bool) {
        let oc = r.origin().sub(self.center);
        let a = r.direction().length_squared();
        let half_b = dot(oc, r.direction());
        let c = fp_sub(oc.length_squared(), fp_mul(self.radius, self.radius));
        let discriminant = fp_sub(fp_mul(half_b, half_b), fp_mul(a, c));
        if fp_lt(discriminant, F_ZERO) {
            return false;
        }
        let sqrt_d = fp_sqrt(discriminant);

        // The nearer root first; the farther only when the nearer is
        // rejected by the open interval.
        let mut root = fp_div(fp_sub(fp_neg(half_b), sqrt_d), a);
        if fp_le(root, t_min) || fp_le(t_max, root) {
            root = fp_div(fp_add(fp_neg(half_b), sqrt_d), a);
            if fp_le(root, t_min) || fp_le(t_max, root) {
                return false;
            }
        }

        rec.t = root;
        rec.p = r.at(root);
        let outward_normal = rec.p.sub(self.center).div(self.radius);
        rec.set_face_normal(r, outward_normal);
        rec.mat = Some(self.material);
        assert(*rec == spec_sphere_record(*self, *r, root));
        true
    }
}

} // verus!
