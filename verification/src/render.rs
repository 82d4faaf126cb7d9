//! The recursive integrator and the sampling loops around it.

use vstd::prelude::*;

use vstd::pervasive::unreached;
use crate::camera::{Camera, spec_get_ray};
use crate::color::{Color, spec_white, spec_color_rgb, get_color_rgb};
use crate::fp::{fp_mul, fp_add, fp_sub, fp_div, fp_from_u52, mul_bits, add_bits, sub_bits,
    div_bits, u52_bits, F_ZERO, F_ONE, F_HALF, F_0_001, F_INFINITY};
use crate::hittable::{HitRecord, Hittable};
use crate::hittable_list::{HittableList, lemma_scan_mat, spec_scan};
use crate::material::{spec_attenuation, spec_scatter_ray, spec_scatter_state,
    spec_scatter_succeeds};
use crate::sphere::Sphere;
use crate::ray::Ray;
use crate::rng::{Rng, next64, double_from_state};
use crate::vec3::{Vec3, unit_vector, spec_unit, spec_add, spec_scale, spec_mul, spec_zero};

verus! {

/// The background gradient a missed ray returns: a vertical blend from
/// white at the horizon to the sky color at the zenith, by
/// `t = (unit_direction.y + 1) / 2`.
pub open spec fn spec_background(r: Ray, sky: Color) -> Color {
    let ud = spec_unit(r.direction);
    let t = mul_bits(F_HALF, add_bits(ud.e1, F_ONE));
    spec_add(spec_scale(spec_white(), sub_bits(F_ONE, t)), spec_scale(sky, t))
}

/// The exact color the integrator computes for a ray over a scene from
/// generator state `s` with `depth` bounces left, paired with the state the
/// sampling leaves behind: black at exhausted depth; the background
/// gradient on a miss; on a hit, the struck material's attenuation times
/// the color of the recursion on the scattered ray when the scatter counts,
/// black when the material absorbs the ray.
pub open spec fn spec_ray_color(r: Ray, objects: Seq<Sphere>, sky: Color, depth: int, s: u64) -> (
    Color,
    u64,
)
    decreases depth,
{
    if depth <= 0 {
        (spec_zero(), s)
    } else {
        match spec_scan(objects, r, F_0_001, F_INFINITY, None::<HitRecord>) {
            None => (spec_background(r, sky), s),
            Some(rec) => {
                let m = rec.mat->0;
                if spec_scatter_succeeds(m, r, rec, s) {
                    let rest = spec_ray_color(
                        spec_scatter_ray(m, r, rec, s),
                        objects,
                        sky,
                        depth - 1,
                        spec_scatter_state(m, r, rec, s),
                    );
                    (spec_mul(spec_attenuation(m), rest.0), rest.1)
                } else {
                    (spec_zero(), spec_scatter_state(m, r, rec, s))
                }
            },
        }
    }
}

/// Carry a camera ray through the scene: the result and the generator
/// state left behind are exactly the integrator's outcome; exhausted depth
/// is exactly black, a miss exactly the background gradient, a counted
/// scatter exactly the attenuated recursive color, an absorbed ray exactly
/// black. Hits are accepted in `(0.001, infinity)`: the lower bound
/// discards self-intersections of a bounce at its own origin.
pub fn ray_color(r: &Ray, world: &HittableList, sky: Color, depth: i32, rng: &mut Rng) -> (c:
    Color)
    requires
        old(rng).well_formed(),
    ensures
        final(rng).well_formed(),
        c == spec_ray_color(*r, world.objects@, sky, depth as int, old(rng).state).0,
        final(rng).state == spec_ray_color(*r, world.objects@, sky, depth as int, old(rng).state).1,
        depth <= 0 ==> c == spec_zero(),
        depth > 0 && world.hit_spec(*r, F_0_001, F_INFINITY) is None ==> c == spec_background(
            *r,
            sky,
        ),
        depth > 0 && world.hit_spec(*r, F_0_001, F_INFINITY) is Some ==> ({
            let rec = world.hit_spec(*r, F_0_001, F_INFINITY)->0;
            let m = rec.mat->0;
            if spec_scatter_succeeds(m, *r, rec, old(rng).state) {
                c == spec_mul(
                    spec_attenuation(m),
                    spec_ray_color(
                        spec_scatter_ray(m, *r, rec, old(rng).state),
                        world.objects@,
                        sky,
                        depth - 1,
                        spec_scatter_state(m, *r, rec, old(rng).state),
                    ).0,
                )
            } else {
                c == spec_zero()
            }
        }),
    decreases depth,
{
    // Bounce-limit exhaustion: no more light is gathered.
    if depth <= 0 {
        return Vec3 { e0: F_ZERO, e1: F_ZERO, e2: F_ZERO };
    }
    let mut rec = HitRecord::new();
    if world.hit(r, F_0_001, F_INFINITY, &mut rec) {
        proof {
            lemma_scan_mat(world.objects@, *r, F_0_001, F_INFINITY, None::<HitRecord>);
        }
        let mut attenuation = Vec3 { e0: F_ZERO, e1: F_ZERO, e2: F_ZERO };
        let mut scattered = Ray::default();
        let m = match rec.mat {
            Some(m) => m,
            None => unreached(),
        };
        if m.scatter(r, &rec, &mut attenuation, &mut scattered, rng) {
            let rest = ray_color(&scattered, world, sky, depth - 1, rng);
            return attenuation.mul(rest);
        }
        // Absorbed: the material reported no scatter.
        return Vec3 { e0: F_ZERO, e1: F_ZERO, e2: F_ZERO };
    }
    let unit_direction = unit_vector(r.direction());
    let t = fp_mul(F_HALF, fp_add(unit_direction.y(), F_ONE));
    let white = Vec3 { e0: F_ONE, e1: F_ONE, e2: F_ONE };
    white.scale(fp_sub(F_ONE, t)).add(sky.scale(t))
}

/// The exact color of one jittered camera sample of pixel `(i, j)` from
/// generator state `s`, with the state the sample leaves behind: one draw
/// jitters the column, one the row, and the ray through the resulting
/// viewport coordinates is integrated with `max_depth` bounces.
pub open spec fn spec_sample_color(
    cam: Camera,
    objects: Seq<Sphere>,
    sky: Color,
    i: u32,
    j: u32,
    image_width: u32,
    image_height: u32,
    max_depth: i32,
    s: u64,
) -> (Color, u64) {
    let u = div_bits(
        add_bits(u52_bits(i as u64), double_from_state(s)),
        u52_bits((image_width - 1) as u64),
    );
    let s1 = next64(s);
    let v = div_bits(
        add_bits(u52_bits(j as u64), double_from_state(s1)),
        u52_bits((image_height - 1) as u64),
    );
    let s2 = next64(s1);
    spec_ray_color(spec_get_ray(cam, u, v), objects, sky, max_depth as int, s2)
}

/// The sum of the first `n` samples of pixel `(i, j)` from generator state
/// `s`, added left to right onto exact black, with the final state.
pub open spec fn spec_pixel_sum(
    cam: Camera,
    objects: Seq<Sphere>,
    sky: Color,
    i: u32,
    j: u32,
    image_width: u32,
    image_height: u32,
    n: int,
    max_depth: i32,
    s: u64,
) -> (Color, u64)
    decreases n,
{
    if n <= 0 {
        (spec_zero(), s)
    } else {
        let prev = spec_pixel_sum(
            cam,
            objects,
            sky,
            i,
            j,
            image_width,
            image_height,
            n - 1,
            max_depth,
            s,
        );
        let sample = spec_sample_color(
            cam,
            objects,
            sky,
            i,
            j,
            image_width,
            image_height,
            max_depth,
            prev.1,
        );
        (spec_add(prev.0, sample.0), sample.1)
    }
}

/// Accumulate one pixel: `samples_per_pixel` jittered camera rays through
/// pixel `(i, j)` of a `image_width x image_height` viewport (row `j`
/// counted from the camera's bottom), averaged and finalized into bytes.
/// The bytes and the generator state left behind are exactly the
/// finalization of the sample sum over the threaded states.
pub fn render_pixel(
    cam: &Camera,
    world: &HittableList,
    sky: Color,
    i: u32,
    j: u32,
    image_width: u32,
    image_height: u32,
    samples_per_pixel: i32,
    max_depth: i32,
    rng: &mut Rng,
) -> (rgb: (u8, u8, u8))
    requires
        old(rng).well_formed(),
        1 <= samples_per_pixel,
        1 <= image_width,
        1 <= image_height,
    ensures
        final(rng).well_formed(),
        rgb == spec_color_rgb(
            spec_pixel_sum(
                *cam,
                world.objects@,
                sky,
                i,
                j,
                image_width,
                image_height,
                samples_per_pixel as int,
                max_depth,
                old(rng).state,
            ).0,
            samples_per_pixel,
        ),
        final(rng).state == spec_pixel_sum(
            *cam,
            world.objects@,
            sky,
            i,
            j,
            image_width,
            image_height,
            samples_per_pixel as int,
            max_depth,
            old(rng).state,
        ).1,
{
    let mut pixel_color = Vec3 { e0: F_ZERO, e1: F_ZERO, e2: F_ZERO };
    let mut s: i32 = 0;
    while s < samples_per_pixel
        invariant
            rng.well_formed(),
            0 <= s <= samples_per_pixel,
            1 <= image_width,
            1 <= image_height,
            pixel_color == spec_pixel_sum(
                *cam,
                world.objects@,
                sky,
                i,
                j,
                image_width,
                image_height,
                s as int,
                max_depth,
                old(rng).state,
            ).0,
            rng.state == spec_pixel_sum(
                *cam,
                world.objects@,
                sky,
                i,
                j,
                image_width,
                image_height,
                s as int,
                max_depth,
                old(rng).state,
            ).1,
        decreases samples_per_pixel - s,
    {
        let u = fp_div(
            fp_add(fp_from_u52(i as u64), rng.next_double()),
            fp_from_u52((image_width - 1) as u64),
        );
        let v = fp_div(
            fp_add(fp_from_u52(j as u64), rng.next_double()),
            fp_from_u52((image_height - 1) as u64),
        );
        let r = cam.get_ray(u, v);
        let sample = ray_color(&r, world, sky, max_depth, rng);
        pixel_color = pixel_color.add(sample);
        s = s + 1;
    }
    get_color_rgb(pixel_color, samples_per_pixel)
}

/// The first `n` pixels of camera row `j`, rendered left to right from
/// generator state `s`, with the final state.
pub open spec fn spec_render_row(
    cam: Camera,
    objects: Seq<Sphere>,
    sky: Color,
    j: u32,
    image_width: u32,
    image_height: u32,
    n: int,
    samples_per_pixel: i32,
    max_depth: i32,
    s: u64,
) -> (Seq<(u8, u8, u8)>, u64)
    decreases n,
{
    if n <= 0 {
        (Seq::empty(), s)
    } else {
        let prev = spec_render_row(
            cam,
            objects,
            sky,
            j,
            image_width,
            image_height,
            n - 1,
            samples_per_pixel,
            max_depth,
            s,
        );
        let px = spec_pixel_sum(
            cam,
            objects,
            sky,
            (n - 1) as u32,
            j,
            image_width,
            image_height,
            samples_per_pixel as int,
            max_depth,
            prev.1,
        );
        (prev.0.push(spec_color_rgb(px.0, samples_per_pixel)), px.1)
    }
}

/// The first `m` rows of the image, top to bottom, from generator state
/// `s`: image row `k` reads camera row `image_height - 1 - k`.
pub open spec fn spec_render_rows(
    cam: Camera,
    objects: Seq<Sphere>,
    sky: Color,
    image_width: u32,
    image_height: u32,
    m: int,
    samples_per_pixel: i32,
    max_depth: i32,
    s: u64,
) -> (Seq<(u8, u8, u8)>, u64)
    decreases m,
{
    if m <= 0 {
        (Seq::empty(), s)
    } else {
        let prev = spec_render_rows(
            cam,
            objects,
            sky,
            image_width,
            image_height,
            m - 1,
            samples_per_pixel,
            max_depth,
            s,
        );
        let row = spec_render_row(
            cam,
            objects,
            sky,
            (image_height - m) as u32,
            image_width,
            image_height,
            image_width as int,
            samples_per_pixel,
            max_depth,
            prev.1,
        );
        (prev.0 + row.0, row.1)
    }
}

/// Render the whole viewport, row-major, top row first: row `j` of the
/// image reads pixel row `image_height - 1 - j` of the camera. The pixels
/// and the generator state left behind are exactly the row-by-row render
/// from the starting state.
pub fn render(
    cam: &Camera,
    world: &HittableList,
    sky: Color,
    image_width: u32,
    image_height: u32,
    samples_per_pixel: i32,
    max_depth: i32,
    rng: &mut Rng,
) -> (pixels: Vec<(u8, u8, u8)>)
    requires
        old(rng).well_formed(),
        1 <= samples_per_pixel,
        1 <= image_width,
        1 <= image_height,
        image_width as int * image_height as int <= usize::MAX as int,
    ensures
        final(rng).well_formed(),
        pixels@.len() == image_width as int * image_height as int,
        pixels@ == spec_render_rows(
            *cam,
            world.objects@,
            sky,
            image_width,
            image_height,
            image_height as int,
            samples_per_pixel,
            max_depth,
            old(rng).state,
        ).0,
        final(rng).state == spec_render_rows(
            *cam,
            world.objects@,
            sky,
            image_width,
            image_height,
            image_height as int,
            samples_per_pixel,
            max_depth,
            old(rng).state,
        ).1,
{
    let mut pixels: Vec<(u8, u8, u8)> = Vec::new();
    let mut jj: u32 = 0;
    assert(pixels@ =~= spec_render_rows(
        *cam,
        world.objects@,
        sky,
        image_width,
        image_height,
        0,
        samples_per_pixel,
        max_depth,
        old(rng).state,
    ).0);
    while jj < image_height
        invariant
            rng.well_formed(),
            jj <= image_height,
            1 <= samples_per_pixel,
            1 <= image_width,
            1 <= image_height,
            pixels@.len() == jj as int * image_width as int,
            pixels@ == spec_render_rows(
                *cam,
                world.objects@,
                sky,
                image_width,
                image_height,
                jj as int,
                samples_per_pixel,
                max_depth,
                old(rng).state,
            ).0,
            rng.state == spec_render_rows(
                *cam,
                world.objects@,
                sky,
                image_width,
                image_height,
                jj as int,
                samples_per_pixel,
                max_depth,
                old(rng).state,
            ).1,
        decreases image_height - jj,
    {
        let j = image_height - 1 - jj;
        let ghost row_start = rng.state;
        let ghost row_prefix = pixels@;
        let mut i: u32 = 0;
        assert(spec_render_row(
            *cam,
            world.objects@,
            sky,
            j,
            image_width,
            image_height,
            0,
            samples_per_pixel,
            max_depth,
            row_start,
        ).0 =~= Seq::<(u8, u8, u8)>::empty());
        assert(pixels@ =~= row_prefix + Seq::<(u8, u8, u8)>::empty());
        while i < image_width
            invariant
                rng.well_formed(),
                jj < image_height,
                j == image_height - 1 - jj,
                i <= image_width,
                1 <= samples_per_pixel,
                1 <= image_width,
                1 <= image_height,
                row_prefix.len() == jj as int * image_width as int,
                pixels@.len() == jj as int * image_width as int + i as int,
                pixels@ == row_prefix + spec_render_row(
                    *cam,
                    world.objects@,
                    sky,
                    j,
                    image_width,
                    image_height,
                    i as int,
                    samples_per_pixel,
                    max_depth,
                    row_start,
                ).0,
                rng.state == spec_render_row(
                    *cam,
                    world.objects@,
                    sky,
                    j,
                    image_width,
                    image_height,
                    i as int,
                    samples_per_pixel,
                    max_depth,
                    row_start,
                ).1,
            decreases image_width - i,
        {
            let rgb = render_pixel(
                cam,
                world,
                sky,
                i,
                j,
                image_width,
                image_height,
                samples_per_pixel,
                max_depth,
                rng,
            );
            pixels.push(rgb);
            proof {
                assert(pixels@ =~= row_prefix + spec_render_row(
                    *cam,
                    world.objects@,
                    sky,
                    j,
                    image_width,
                    image_height,
                    i as int + 1,
                    samples_per_pixel,
                    max_depth,
                    row_start,
                ).0);
            }
            i = i + 1;
        }
        proof {
            assert((jj as int + 1) * image_width as int == jj as int * image_width as int
                + image_width as int) by (nonlinear_arith);
            assert(j == image_height - (jj as int + 1));
        }
        jj = jj + 1;
    }
    proof {
        assert(image_height as int * image_width as int == image_width as int
            * image_height as int) by (nonlinear_arith);
    }
    pixels
}

} // verus!
