//! The three-variant material scattering model: diffuse, reflective with
//! fuzz, and refractive with Schlick reflectance.

use vstd::prelude::*;

use crate::color::{Color, spec_white};
use crate::fp::{fp_lt, fp_min, fp_mul, fp_div, fp_sub, fp_add, fp_sqrt, fp_clamp, lt_bits,
    min_bits, mul_bits, div_bits, sub_bits, add_bits, sqrt_bits, clamp_bits, F_ZERO, F_ONE};
use crate::hittable::HitRecord;
use crate::ray::Ray;
use crate::rng::{Rng, next64, double_from_state};
use crate::vec3::{Vec3, dot, reflect, refract, unit_vector, random_unit_vector,
    random_in_unit_sphere, spec_add, spec_scale, spec_dot, spec_neg, spec_near_zero, spec_unit,
    spec_reflect, spec_refract, spec_rejection_sample, spec_unit_sample, REJECTION_FUEL};

verus! {

/// A diffuse surface: scatters about the normal, attenuates by its albedo.
#[derive(Copy, Clone)]
pub struct Lambertian {
    pub albedo: Color,
}

/// A reflective surface: mirrors the incident ray, perturbed by `fuzz`.
#[derive(Copy, Clone)]
pub struct Metal {
    pub albedo: Color,
    pub fuzz: u64,
}

/// A refractive surface with a relative refraction index.
#[derive(Copy, Clone)]
pub struct Dielectric {
    pub refraction_index: u64,
}

/// The closed set of materials a primitive can carry.
#[derive(Copy, Clone)]
pub enum Material {
    Lambertian(Lambertian),
    Metal(Metal),
    Dielectric(Dielectric),
}

/// What scattering multiplies the carried light by: the albedo for diffuse
/// and reflective surfaces, exact white for glass.
pub open spec fn spec_attenuation(m: Material) -> Color {
    match m {
        Material::Lambertian(l) => l.albedo,
        Material::Metal(me) => me.albedo,
        Material::Dielectric(_) => spec_white(),
    }
}

/// The direction a diffuse surface scatters to from generator state `s`:
/// `normal + u` for the unit draw `u` of that state, with the normal
/// substituted when the sum is degenerate.
pub open spec fn spec_lambertian_direction(rec: HitRecord, s: u64) -> Vec3 {
    let d = spec_add(rec.normal, spec_unit_sample(s).0);
    if spec_near_zero(d) {
        rec.normal
    } else {
        d
    }
}

/// The direction a metal scatters to from generator state `s`: the mirror
/// reflection of the unit incident direction, perturbed by `fuzz` times the
/// in-ball draw of that state.
pub open spec fn spec_metal_direction(m: Metal, r_in: Ray, rec: HitRecord, s: u64) -> Vec3 {
    spec_add(
        spec_reflect(spec_unit(r_in.direction), rec.normal),
        spec_scale(spec_rejection_sample(s, REJECTION_FUEL as nat).0, m.fuzz),
    )
}

/// The ratio of refractive indices across the struck face: entering the
/// surface divides one by the index, leaving multiplies by it.
pub open spec fn spec_refraction_ratio(d: Dielectric, front_face: bool) -> u64 {
    if front_face {
        div_bits(F_ONE, d.refraction_index)
    } else {
        d.refraction_index
    }
}

/// Schlick's reflectance approximation:
/// `r0 + (1-r0)*(1-cos)^5` for `r0 = ((1-ratio)/(1+ratio))^2`.
pub open spec fn spec_reflectance(cosine: u64, ratio: u64) -> u64 {
    let r0 = div_bits(sub_bits(F_ONE, ratio), add_bits(F_ONE, ratio));
    let r0s = mul_bits(r0, r0);
    let m1 = sub_bits(F_ONE, cosine);
    let p2 = mul_bits(m1, m1);
    let p5 = mul_bits(mul_bits(p2, p2), m1);
    add_bits(r0s, mul_bits(sub_bits(F_ONE, r0s), p5))
}

/// The cosine a dielectric computes at the hit: `min(dot(-unit_dir, normal), 1)`.
pub open spec fn spec_dielectric_cos(r_in: Ray, rec: HitRecord) -> u64 {
    min_bits(spec_dot(spec_neg(spec_unit(r_in.direction)), rec.normal), F_ONE)
}

/// True iff Snell's law admits no refracted ray: `ratio * sin_theta > 1`.
pub open spec fn spec_cannot_refract(d: Dielectric, r_in: Ray, rec: HitRecord) -> bool {
    let ratio = spec_refraction_ratio(d, rec.front_face);
    let cos = spec_dielectric_cos(r_in, rec);
    let sin = sqrt_bits(sub_bits(F_ONE, mul_bits(cos, cos)));
    lt_bits(F_ONE, mul_bits(ratio, sin))
}

/// The direction a dielectric scatters to from generator state `s`: the
/// mirror reflection under total internal reflection or a winning Schlick
/// draw, otherwise the Snell refraction.
pub open spec fn spec_dielectric_direction(d: Dielectric, r_in: Ray, rec: HitRecord, s: u64) -> Vec3 {
    let ratio = spec_refraction_ratio(d, rec.front_face);
    let ud = spec_unit(r_in.direction);
    let cos = spec_dielectric_cos(r_in, rec);
    if spec_cannot_refract(d, r_in, rec) || lt_bits(
        double_from_state(s),
        spec_reflectance(cos, ratio),
    ) {
        spec_reflect(ud, rec.normal)
    } else {
        spec_refract(ud, rec.normal, ratio)
    }
}

/// The generator state a dielectric scatter leaves behind: unchanged under
/// total internal reflection (no draw is taken), else stepped once.
pub open spec fn spec_dielectric_state(d: Dielectric, r_in: Ray, rec: HitRecord, s: u64) -> u64 {
    if spec_cannot_refract(d, r_in, rec) {
        s
    } else {
        next64(s)
    }
}

/// The ray any material scatters to from generator state `s`: out of the
/// hit point, along the variant's own direction rule.
pub open spec fn spec_scatter_ray(m: Material, r_in: Ray, rec: HitRecord, s: u64) -> Ray {
    match m {
        Material::Lambertian(_) => Ray {
            origin: rec.p,
            direction: spec_lambertian_direction(rec, s),
        },
        Material::Metal(me) => Ray {
            origin: rec.p,
            direction: spec_metal_direction(me, r_in, rec, s),
        },
        Material::Dielectric(d) => Ray {
            origin: rec.p,
            direction: spec_dielectric_direction(d, r_in, rec, s),
        },
    }
}

/// The generator state any material's scatter leaves behind.
pub open spec fn spec_scatter_state(m: Material, r_in: Ray, rec: HitRecord, s: u64) -> u64 {
    match m {
        Material::Lambertian(_) => spec_unit_sample(s).1,
        Material::Metal(_) => spec_rejection_sample(s, REJECTION_FUEL as nat).1,
        Material::Dielectric(d) => spec_dielectric_state(d, r_in, rec, s),
    }
}

/// Whether the scatter counts: diffuse and refractive surfaces always
/// scatter; a metal's perturbed reflection counts iff it leaves the
/// surface, that is iff its direction keeps a positive dot with the normal.
pub open spec fn spec_scatter_succeeds(m: Material, r_in: Ray, rec: HitRecord, s: u64) -> bool {
    match m {
        Material::Metal(me) => lt_bits(
            F_ZERO,
            spec_dot(spec_metal_direction(me, r_in, rec, s), rec.normal),
        ),
        _ => true,
    }
}

impl Lambertian {
    /// A diffuse material with the given albedo.
    pub fn new(albedo: Color) -> (r: Lambertian)
        ensures
            r == (Lambertian { albedo }),
    {
        Lambertian { albedo }
    }

    /// Diffuse scattering: always succeeds; the outgoing ray leaves the hit
    /// point along `normal + u` for the unit draw `u` of the starting
    /// generator state, with the normal substituted when the sum is near
    /// zero; attenuation is the albedo.
    pub fn scatter(
        &self,
        _r_in: &Ray,
        rec: &HitRecord,
        attenuation: &mut Color,
        scattered: &mut Ray,
        rng: &mut Rng,
    ) -> (b: bool)
        requires
            old(rng).well_formed(),
        ensures
            b,
            *final(attenuation) == self.albedo,
            *final(scattered) == (Ray {
                origin: rec.p,
                direction: spec_lambertian_direction(*rec, old(rng).state),
            }),
            final(rng).state == spec_unit_sample(old(rng).state).1,
            final(rng).well_formed(),
    {
        let u = random_unit_vector(rng);
        let mut direction = rec.normal.add(u);
        if direction.near_zero() {
            direction = rec.normal;
        }
        *scattered = Ray { origin: rec.p, direction };
        *attenuation = self.albedo;
        true
    }
}

impl Metal {
    /// A reflective material; the perturbation radius is forced into
    /// `[0, 1]`.
    pub fn new(albedo: Color, fuzz: u64) -> (r: Metal)
        ensures
            r.albedo == albedo,
            r.fuzz == clamp_bits(fuzz, F_ZERO, F_ONE),
    {
        Metal { albedo, fuzz: fp_clamp(fuzz, F_ZERO, F_ONE) }
    }

    /// Specular scattering: the outgoing ray mirrors the unit incident
    /// direction about the normal, perturbed by `fuzz` times the in-ball
    /// draw of the starting generator state; it counts only when it leaves
    /// the surface, that is when its direction keeps a positive dot with
    /// the normal.
    pub fn scatter(
        &self,
        r_in: &Ray,
        rec: &HitRecord,
        attenuation: &mut Color,
        scattered: &mut Ray,
        rng: &mut Rng,
    ) -> (b: bool)
        requires
            old(rng).well_formed(),
        ensures
            *final(attenuation) == self.albedo,
            *final(scattered) == (Ray {
                origin: rec.p,
                direction: spec_metal_direction(*self, *r_in, *rec, old(rng).state),
            }),
            b == lt_bits(F_ZERO, spec_dot(final(scattered).direction, rec.normal)),
            final(rng).state == spec_rejection_sample(old(rng).state, REJECTION_FUEL as nat).1,
            final(rng).well_formed(),
    {
        let reflected = reflect(unit_vector(r_in.direction()), rec.normal);
        let q = random_in_unit_sphere(rng);
        let direction = reflected.add(q.scale(self.fuzz));
        *scattered = Ray { origin: rec.p, direction };
        *attenuation = self.albedo;
        fp_lt(F_ZERO, dot(direction, rec.normal))
    }
}

impl Dielectric {
    /// A refractive material with the given relative index; the data model
    /// asks every caller for a positive index.
    pub fn new(refraction_index: u64) -> (r: Dielectric)
        requires
            lt_bits(F_ZERO, refraction_index),
        ensures
            r == (Dielectric { refraction_index }),
    {
        Dielectric { refraction_index }
    }

    /// Refractive scattering: always succeeds and attenuates by exact
    /// white. The direction and the generator state it leaves behind are
    /// exact functions of the inputs: reflection under total internal
    /// reflection or a winning Schlick draw, refraction otherwise.
    pub fn scatter(
        &self,
        r_in: &Ray,
        rec: &HitRecord,
        attenuation: &mut Color,
        scattered: &mut Ray,
        rng: &mut Rng,
    ) -> (b: bool)
        requires
            old(rng).well_formed(),
        ensures
            b,
            *final(attenuation) == spec_white(),
            *final(scattered) == (Ray {
                origin: rec.p,
                direction: spec_dielectric_direction(*self, *r_in, *rec, old(rng).state),
            }),
            final(rng).state == spec_dielectric_state(*self, *r_in, *rec, old(rng).state),
            final(rng).well_formed(),
    {
        let refraction_ratio = if rec.front_face {
            fp_div(F_ONE, self.refraction_index)
        } else {
            self.refraction_index
        };
        let unit_direction = unit_vector(r_in.direction());
        let cos_theta = fp_min(dot(unit_direction.neg(), rec.normal), F_ONE);
        let sin_theta = fp_sqrt(fp_sub(F_ONE, fp_mul(cos_theta, cos_theta)));
        let cannot_refract = fp_lt(F_ONE, fp_mul(refraction_ratio, sin_theta));
        let direction = if cannot_refract || {
            let draw = rng.next_double();
            fp_lt(draw, reflectance(cos_theta, refraction_ratio))
        } {
            reflect(unit_direction, rec.normal)
        } else {
            refract(unit_direction, rec.normal, refraction_ratio)
        };
        *scattered = Ray { origin: rec.p, direction };
        *attenuation = Vec3 { e0: F_ONE, e1: F_ONE, e2: F_ONE };
        true
    }
}

/// Schlick's reflectance approximation, evaluated by the named operations.
pub fn reflectance(cosine: u64, ratio: u64) -> (r: u64)
    ensures
        r == spec_reflectance(cosine, ratio),
{
    let r0 = fp_div(fp_sub(F_ONE, ratio), fp_add(F_ONE, ratio));
    let r0s = fp_mul(r0, r0);
    let m1 = fp_sub(F_ONE, cosine);
    let p2 = fp_mul(m1, m1);
    let p5 = fp_mul(fp_mul(p2, p2), m1);
    fp_add(r0s, fp_mul(fp_sub(F_ONE, r0s), p5))
}

impl Material {
    /// Dispatch scattering to the variant's rule: the outgoing ray, the
    /// success flag and the generator state left behind are exact functions
    /// of the material, the incident ray, the record and the starting
    /// state; the attenuation is the variant's own.
    pub fn scatter(
        &self,
        r_in: &Ray,
        rec: &HitRecord,
        attenuation: &mut Color,
        scattered: &mut Ray,
        rng: &mut Rng,
    ) -> (b: bool)
        requires
            old(rng).well_formed(),
        ensures
            *final(attenuation) == spec_attenuation(*self),
            *final(scattered) == spec_scatter_ray(*self, *r_in, *rec, old(rng).state),
            b == spec_scatter_succeeds(*self, *r_in, *rec, old(rng).state),
            final(rng).state == spec_scatter_state(*self, *r_in, *rec, old(rng).state),
            final(rng).well_formed(),
    {
        match self {
            Material::Lambertian(l) => l.scatter(r_in, rec, attenuation, scattered, rng),
            Material::Metal(m) => m.scatter(r_in, rec, attenuation, scattered, rng),
            Material::Dielectric(d) => d.scatter(r_in, rec, attenuation, scattered, rng),
        }
    }
}

} // verus!
