//! Colors are vectors of RGB intensities; pixel finalization averages the
//! accumulated samples, gamma-corrects, clamps and truncates each channel
//! to a byte.

use vstd::prelude::*;

use crate::fp::{fp_mul, fp_div, fp_sqrt, fp_clamp, fp_from_u52, fp_trunc_u8, mul_bits, div_bits,
    sqrt_bits, clamp_bits, trunc_u8_bits, u52_bits, F_ZERO, F_ONE, F_256, F_0_999};
use crate::vec3::Vec3;

verus! {

/// The same structural type names an RGB intensity.
pub type Color = Vec3;

/// Exact white `(1,1,1)`.
pub open spec fn spec_white() -> Color {
    Vec3 { e0: F_ONE, e1: F_ONE, e2: F_ONE }
}

/// One channel finalized: scaled by `1/samples`, gamma-2 corrected by a
/// square root, clamped into `[0, 0.999]`, scaled by 256 and truncated to a
/// byte.
pub open spec fn spec_channel_byte(x: u64, scale: u64) -> u8 {
    trunc_u8_bits(mul_bits(F_256, clamp_bits(sqrt_bits(mul_bits(scale, x)), F_ZERO, F_0_999)))
}

/// All three channels of a pixel finalized over `samples_per_pixel` samples.
pub open spec fn spec_color_rgb(pixel_color: Color, samples_per_pixel: i32) -> (u8, u8, u8) {
    let scale = div_bits(F_ONE, u52_bits(samples_per_pixel as u64));
    (
        spec_channel_byte(pixel_color.e0, scale),
        spec_channel_byte(pixel_color.e1, scale),
        spec_channel_byte(pixel_color.e2, scale),
    )
}

/// Finalize an accumulated pixel color into one byte per channel.
pub fn get_color_rgb(pixel_color: Color, samples_per_pixel: i32) -> (rgb: (u8, u8, u8))
    requires
        1 <= samples_per_pixel,
    ensures
        rgb == spec_color_rgb(pixel_color, samples_per_pixel),
{
    let scale = fp_div(F_ONE, fp_from_u52(samples_per_pixel as u64));
    let r = fp_sqrt(fp_mul(scale, pixel_color.e0));
    let g = fp_sqrt(fp_mul(scale, pixel_color.e1));
    let b = fp_sqrt(fp_mul(scale, pixel_color.e2));
    (
        fp_trunc_u8(fp_mul(F_256, fp_clamp(r, F_ZERO, F_0_999))),
        fp_trunc_u8(fp_mul(F_256, fp_clamp(g, F_ZERO, F_0_999))),
        fp_trunc_u8(fp_mul(F_256, fp_clamp(b, F_ZERO, F_0_999))),
    )
}

} // verus!
