//! The intersection record and the hit-testing capability.

use vstd::prelude::*;

use crate::fp::{fp_lt, lt_bits, F_ZERO};
use crate::material::Material;
use crate::ray::Ray;
use crate::vec3::{Vec3, Point3, dot, spec_dot, spec_neg, spec_zero};

verus! {

/// A successful intersection: the point, the surface normal oriented
/// against the incoming ray, the ray parameter, which side was struck, and
/// the material of the struck primitive.
#[derive(Copy, Clone)]
pub struct HitRecord {
    pub p: Point3,
    pub normal: Vec3,
    pub t: u64,
    pub front_face: bool,
    pub mat: Option<Material>,
}

impl HitRecord {
    /// An empty record, to be filled by a hit test.
    pub fn new() -> (r: HitRecord)
        ensures
            r == (HitRecord {
                p: spec_zero(),
                normal: spec_zero(),
                t: F_ZERO,
                front_face: false,
                mat: None::<Material>,
            }),
    {
        HitRecord {
            p: Vec3 { e0: F_ZERO, e1: F_ZERO, e2: F_ZERO },
            normal: Vec3 { e0: F_ZERO, e1: F_ZERO, e2: F_ZERO },
            t: F_ZERO,
            front_face: false,
            mat: None,
        }
    }

    /// The face-normal rule: the stored normal always opposes the incoming
    /// ray. `front_face` records whether the geometric outward normal did.
    pub fn set_face_normal(&mut self, r: &Ray, outward_normal: Vec3)
        ensures
            final(self).front_face == lt_bits(spec_dot(r.direction, outward_normal), F_ZERO),
            final(self).normal == if final(self).front_face {
                outward_normal
            } else {
                spec_neg(outward_normal)
            },
            final(self).p == old(self).p,
            final(self).t == old(self).t,
            final(self).mat == old(self).mat,
    {
        self.front_face = fp_lt(dot(r.direction(), outward_normal), F_ZERO);
        self.normal = if self.front_face {
            outward_normal
        } else {
            outward_normal.neg()
        };
    }
}

/// The hit-testing capability: any shape that a ray can strike.
pub trait Hittable {
    /// What `hit` finds for this shape on this ray over the open interval
    /// `(t_min, t_max)`: the record of the nearest accepted intersection,
    /// or nothing.
    spec fn hit_spec(&self, r: Ray, t_min: u64, t_max: u64) -> Option<HitRecord>;

    /// Test the ray against the shape; on success fill the record and
    /// return true, otherwise leave the record untouched.
    fn hit(&self, r: &Ray, t_min: u64, t_max: u64, rec: &mut HitRecord) -> (b: bool)
        ensures
            b == (self.hit_spec(*r, t_min, t_max) is Some),
            b ==> *final(rec) == self.hit_spec(*r, t_min, t_max)->0,
            !b ==> *final(rec) == *old(rec),
    ;
}

} // verus!
