//! The camera: maps normalized viewport coordinates to world-space rays,
//! derived once from a vertical field of view and an aspect ratio.

use vstd::prelude::*;

use crate::fp::{fp_mul, fp_div, fp_sin, fp_cos, mul_bits, div_bits, sin_bits, cos_bits, F_ZERO,
    F_ONE, F_TWO, F_PI, F_180};
use crate::ray::Ray;
use crate::vec3::{Vec3, Point3, spec_add, spec_sub, spec_div, spec_scale, spec_zero};

verus! {

/// Degrees scaled into radians: `d * pi / 180`.
pub open spec fn spec_degrees_to_radians(d: u64) -> u64 {
    div_bits(mul_bits(d, F_PI), F_180)
}

/// Convert an angle in degrees to radians.
pub fn degrees_to_radians(d: u64) -> (r: u64)
    ensures
        r == spec_degrees_to_radians(d),
{
    fp_div(fp_mul(d, F_PI), F_180)
}

/// The tangent of half the vertical field of view, by the quotient of sine
/// and cosine.
pub open spec fn spec_tan_half_fov(vfov_degrees: u64) -> u64 {
    let half = div_bits(spec_degrees_to_radians(vfov_degrees), F_TWO);
    div_bits(sin_bits(half), cos_bits(half))
}

/// The viewport height spanned by the field of view: `2 * tan(fov/2)`.
pub open spec fn spec_viewport_height(vfov_degrees: u64) -> u64 {
    mul_bits(F_TWO, spec_tan_half_fov(vfov_degrees))
}

/// The camera a field of view and an aspect ratio derive: the eye at the
/// origin, a viewport of height `2*tan(fov/2)` and width `aspect * height`
/// at unit focal distance, and its lower-left corner
/// `origin - horizontal/2 - vertical/2 - (0,0,1)`.
pub open spec fn spec_camera(vfov_degrees: u64, aspect_ratio: u64) -> Camera {
    let viewport_height = spec_viewport_height(vfov_degrees);
    let viewport_width = mul_bits(aspect_ratio, viewport_height);
    let origin = spec_zero();
    let horizontal = Vec3 { e0: viewport_width, e1: F_ZERO, e2: F_ZERO };
    let vertical = Vec3 { e0: F_ZERO, e1: viewport_height, e2: F_ZERO };
    Camera {
        origin,
        horizontal,
        vertical,
        lower_left_corner: spec_sub(
            spec_sub(spec_sub(origin, spec_div(horizontal, F_TWO)), spec_div(vertical, F_TWO)),
            Vec3 { e0: F_ZERO, e1: F_ZERO, e2: F_ONE },
        ),
    }
}

/// The ray through normalized viewport coordinates `(u, v)`:
/// from the eye toward `lower_left + u*horizontal + v*vertical - origin`.
pub open spec fn spec_get_ray(c: Camera, u: u64, v: u64) -> Ray {
    Ray {
        origin: c.origin,
        direction: spec_sub(
            spec_add(
                spec_add(c.lower_left_corner, spec_scale(c.horizontal, u)),
                spec_scale(c.vertical, v),
            ),
            c.origin,
        ),
    }
}

/// The precomputed viewport geometry; read-only once rendering starts.
#[derive(Copy, Clone)]
pub struct Camera {
    pub origin: Point3,
    pub lower_left_corner: Point3,
    pub horizontal: Vec3,
    pub vertical: Vec3,
}

impl Camera {
    /// Derive the viewport from a vertical field of view in degrees and an
    /// aspect ratio.
    pub fn new(vfov_degrees: u64, aspect_ratio: u64) -> (c: Camera)
        ensures
            c == spec_camera(vfov_degrees, aspect_ratio),
    {
        let theta = degrees_to_radians(vfov_degrees);
        let half = fp_div(theta, F_TWO);
        let h = fp_div(fp_sin(half), fp_cos(half));
        let viewport_height = fp_mul(F_TWO, h);
        let viewport_width = fp_mul(aspect_ratio, viewport_height);

        let origin = Vec3 { e0: F_ZERO, e1: F_ZERO, e2: F_ZERO };
        let horizontal = Vec3 { e0: viewport_width, e1: F_ZERO, e2: F_ZERO };
        let vertical = Vec3 { e0: F_ZERO, e1: viewport_height, e2: F_ZERO };
        let lower_left_corner = origin.sub(horizontal.div(F_TWO)).sub(vertical.div(F_TWO)).sub(
            Vec3 { e0: F_ZERO, e1: F_ZERO, e2: F_ONE },
        );
        Camera { origin, lower_left_corner, horizontal, vertical }
    }

    /// The ray through normalized viewport coordinates `(u, v)`.
    pub fn get_ray(&self, u: u64, v: u64) -> (r: Ray)
        ensures
            r == spec_get_ray(*self, u, v),
    {
        Ray {
            origin: self.origin,
            direction: self.lower_left_corner.add(self.horizontal.scale(u)).add(
                self.vertical.scale(v),
            ).sub(self.origin),
        }
    }
}

} // verus!
