//! Rays: a parametric line `origin + t * direction`.

use vstd::prelude::*;

use crate::fp::{F_ZERO};
use crate::vec3::{Vec3, Point3, spec_add, spec_scale, spec_zero};

verus! {

/// A ray, immutable after construction.
#[derive(Copy, Clone, Debug, PartialEq, Eq, Structural)]
pub struct Ray {
    pub origin: Point3,
    pub direction: Vec3,
}

/// The point the ray reaches at parameter `t`: `origin + t * direction`.
pub open spec fn spec_ray_at(r: Ray, t: u64) -> Point3 {
    spec_add(r.origin, spec_scale(r.direction, t))
}

impl Ray {
    /// A ray out of an origin along a direction.
    pub fn new(origin: Point3, direction: Vec3) -> (r: Ray)
        ensures
            r == (Ray { origin, direction }),
    {
        Ray { origin, direction }
    }

    /// The origin.
    pub fn origin(&self) -> (r: Point3)
        ensures
            r == self.origin,
    {
        self.origin
    }

    /// The direction.
    pub fn direction(&self) -> (r: Vec3)
        ensures
            r == self.direction,
    {
        self.direction
    }

    /// The point at parameter `t`; pure and total.
    pub fn at(&self, t: u64) -> (r: Point3)
        ensures
            r == spec_ray_at(*self, t),
    {
        self.origin.add(self.direction.scale(t))
    }
}

impl Default for Ray {
    /// The degenerate ray at the origin with a zero direction.
    fn default() -> (r: Ray)
        ensures
            r == (Ray { origin: spec_zero(), direction: spec_zero() }),
    {
        Ray {
            origin: Vec3 { e0: F_ZERO, e1: F_ZERO, e2: F_ZERO },
            direction: Vec3 { e0: F_ZERO, e1: F_ZERO, e2: F_ZERO },
        }
    }
}

} // verus!
