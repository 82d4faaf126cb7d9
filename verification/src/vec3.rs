//! Three-component vectors of doubles, used for positions, directions and
//! RGB intensities alike. Every operation's result is stated exactly, as a
//! composition of the named IEEE-754 operations on the component bits.

use vstd::prelude::*;

use crate::fp::{fp_add, fp_sub, fp_mul, fp_div, fp_sqrt, fp_neg, fp_abs, fp_lt, fp_le, fp_min,
    add_bits, sub_bits, mul_bits, div_bits, sqrt_bits, neg_bits, abs_bits, lt_bits, le_bits,
    min_bits, F_ZERO, F_ONE, F_NEG_ONE, F_TWO, F_1E_8};
use crate::rng::{Rng, next64, double_from_state, double_range_from_state};

verus! {

/// A vector of three doubles, each carried as its bit pattern.
#[derive(Copy, Clone, Debug, PartialEq, Eq, Structural)]
pub struct Vec3 {
    pub e0: u64,
    pub e1: u64,
    pub e2: u64,
}

/// The same structural type names a position.
pub type Point3 = Vec3;

/// The zero vector, which is also exact black.
pub open spec fn spec_zero() -> Vec3 {
    Vec3 { e0: F_ZERO, e1: F_ZERO, e2: F_ZERO }
}

/// Component-wise sum.
pub open spec fn spec_add(u: Vec3, v: Vec3) -> Vec3 {
    Vec3 { e0: add_bits(u.e0, v.e0), e1: add_bits(u.e1, v.e1), e2: add_bits(u.e2, v.e2) }
}

/// Component-wise difference.
pub open spec fn spec_sub(u: Vec3, v: Vec3) -> Vec3 {
    Vec3 { e0: sub_bits(u.e0, v.e0), e1: sub_bits(u.e1, v.e1), e2: sub_bits(u.e2, v.e2) }
}

/// Component-wise product.
pub open spec fn spec_mul(u: Vec3, v: Vec3) -> Vec3 {
    Vec3 { e0: mul_bits(u.e0, v.e0), e1: mul_bits(u.e1, v.e1), e2: mul_bits(u.e2, v.e2) }
}

/// Each component negated: its sign bit flipped.
pub open spec fn spec_neg(v: Vec3) -> Vec3 {
    Vec3 { e0: neg_bits(v.e0), e1: neg_bits(v.e1), e2: neg_bits(v.e2) }
}

/// Each component scaled by the double `t`.
pub open spec fn spec_scale(v: Vec3, t: u64) -> Vec3 {
    Vec3 { e0: mul_bits(v.e0, t), e1: mul_bits(v.e1, t), e2: mul_bits(v.e2, t) }
}

/// Each component divided by the double `t`.
pub open spec fn spec_div(v: Vec3, t: u64) -> Vec3 {
    Vec3 { e0: div_bits(v.e0, t), e1: div_bits(v.e1, t), e2: div_bits(v.e2, t) }
}

/// The dot product, summed left to right.
pub open spec fn spec_dot(u: Vec3, v: Vec3) -> u64 {
    add_bits(add_bits(mul_bits(u.e0, v.e0), mul_bits(u.e1, v.e1)), mul_bits(u.e2, v.e2))
}

/// The cross product.
pub open spec fn spec_cross(u: Vec3, v: Vec3) -> Vec3 {
    Vec3 {
        e0: sub_bits(mul_bits(u.e1, v.e2), mul_bits(u.e2, v.e1)),
        e1: sub_bits(mul_bits(u.e2, v.e0), mul_bits(u.e0, v.e2)),
        e2: sub_bits(mul_bits(u.e0, v.e1), mul_bits(u.e1, v.e0)),
    }
}

/// The squared length: the vector dotted with itself.
pub open spec fn spec_length_squared(v: Vec3) -> u64 {
    spec_dot(v, v)
}

/// The length: the square root of the squared length.
pub open spec fn spec_length(v: Vec3) -> u64 {
    sqrt_bits(spec_length_squared(v))
}

/// The vector divided by its own length.
pub open spec fn spec_unit(v: Vec3) -> Vec3 {
    spec_div(v, spec_length(v))
}

/// True iff every component's absolute value is below `1.0e-8`.
pub open spec fn spec_near_zero(v: Vec3) -> bool {
    lt_bits(abs_bits(v.e0), F_1E_8) && lt_bits(abs_bits(v.e1), F_1E_8) && lt_bits(
        abs_bits(v.e2),
        F_1E_8,
    )
}

/// `v - 2*dot(v,n)*n`: the mirror image of `v` about the plane normal to
/// `n`, for unit `n`.
pub open spec fn spec_reflect(v: Vec3, n: Vec3) -> Vec3 {
    spec_sub(v, spec_scale(n, mul_bits(F_TWO, spec_dot(v, n))))
}

/// Snell refraction of the unit incident direction `uv` about the unit
/// normal `n`, for the refractive-index ratio `etai_over_etat`:
/// `cos_theta = min(dot(-uv, n), 1)`, the perpendicular part is
/// `etai_over_etat * (uv + cos_theta*n)`, the parallel part is
/// `-sqrt(|1 - |perp|^2|) * n`, and the result is their sum.
pub open spec fn spec_refract(uv: Vec3, n: Vec3, etai_over_etat: u64) -> Vec3 {
    let cos_theta = min_bits(spec_dot(spec_neg(uv), n), F_ONE);
    let r_out_perp = spec_scale(spec_add(uv, spec_scale(n, cos_theta)), etai_over_etat);
    let r_out_parallel = spec_scale(
        n,
        neg_bits(sqrt_bits(abs_bits(sub_bits(F_ONE, spec_length_squared(r_out_perp))))),
    );
    spec_add(r_out_perp, r_out_parallel)
}

/// The vector drawn from generator state `s`: three unit draws in a row.
pub open spec fn spec_random(s: u64) -> Vec3 {
    Vec3 {
        e0: double_from_state(s),
        e1: double_from_state(next64(s)),
        e2: double_from_state(next64(next64(s))),
    }
}

/// The vector drawn from generator state `s` with each component in
/// `[min, max)`.
pub open spec fn spec_random_range(s: u64, min: u64, max: u64) -> Vec3 {
    Vec3 {
        e0: double_range_from_state(s, min, max),
        e1: double_range_from_state(next64(s), min, max),
        e2: double_range_from_state(next64(next64(s)), min, max),
    }
}

impl Vec3 {
    /// Pack three component bit patterns into a vector.
    pub fn new(x: u64, y: u64, z: u64) -> (r: Vec3)
        ensures
            r == (Vec3 { e0: x, e1: y, e2: z }),
    {
        Vec3 { e0: x, e1: y, e2: z }
    }

    /// The first component.
    pub fn x(&self) -> (r: u64)
        ensures
            r == self.e0,
    {
        self.e0
    }

    /// The second component.
    pub fn y(&self) -> (r: u64)
        ensures
            r == self.e1,
    {
        self.e1
    }

    /// The third component.
    pub fn z(&self) -> (r: u64)
        ensures
            r == self.e2,
    {
        self.e2
    }

    /// Component-wise sum.
    pub fn add(self, v: Vec3) -> (r: Vec3)
        ensures
            r == spec_add(self, v),
    {
        Vec3 { e0: fp_add(self.e0, v.e0), e1: fp_add(self.e1, v.e1), e2: fp_add(self.e2, v.e2) }
    }

    /// Component-wise difference.
    pub fn sub(self, v: Vec3) -> (r: Vec3)
        ensures
            r == spec_sub(self, v),
    {
        Vec3 { e0: fp_sub(self.e0, v.e0), e1: fp_sub(self.e1, v.e1), e2: fp_sub(self.e2, v.e2) }
    }

    /// Component-wise product.
    pub fn mul(self, v: Vec3) -> (r: Vec3)
        ensures
            r == spec_mul(self, v),
    {
        Vec3 { e0: fp_mul(self.e0, v.e0), e1: fp_mul(self.e1, v.e1), e2: fp_mul(self.e2, v.e2) }
    }

    /// Negation: each component's sign bit flipped.
    pub fn neg(self) -> (r: Vec3)
        ensures
            r == spec_neg(self),
    {
        Vec3 { e0: fp_neg(self.e0), e1: fp_neg(self.e1), e2: fp_neg(self.e2) }
    }

    /// Each component scaled by the double `t`.
    pub fn scale(self, t: u64) -> (r: Vec3)
        ensures
            r == spec_scale(self, t),
    {
        Vec3 { e0: fp_mul(self.e0, t), e1: fp_mul(self.e1, t), e2: fp_mul(self.e2, t) }
    }

    /// Each component divided by the double `t`.
    pub fn div(self, t: u64) -> (r: Vec3)
        ensures
            r == spec_div(self, t),
    {
        Vec3 { e0: fp_div(self.e0, t), e1: fp_div(self.e1, t), e2: fp_div(self.e2, t) }
    }

    /// The vector divided by its own length; the caller guarantees a
    /// nonzero length, as the data model asks.
    pub fn unit(&self) -> (r: Vec3)
        ensures
            r == spec_unit(*self),
    {
        let len = self.length();
        self.div(len)
    }

    /// The Euclidean length.
    pub fn length(&self) -> (r: u64)
        ensures
            r == spec_length(*self),
    {
        fp_sqrt(self.length_squared())
    }

    /// The squared Euclidean length.
    pub fn length_squared(&self) -> (r: u64)
        ensures
            r == spec_length_squared(*self),
    {
        fp_add(
            fp_add(fp_mul(self.e0, self.e0), fp_mul(self.e1, self.e1)),
            fp_mul(self.e2, self.e2),
        )
    }

    /// True iff the vector is close to zero in every dimension.
    pub fn near_zero(&self) -> (r: bool)
        ensures
            r == spec_near_zero(*self),
    {
        fp_lt(fp_abs(self.e0), F_1E_8) && fp_lt(fp_abs(self.e1), F_1E_8) && fp_lt(
            fp_abs(self.e2),
            F_1E_8,
        )
    }
}

/// The dot product.
pub fn dot(u: Vec3, v: Vec3) -> (r: u64)
    ensures
        r == spec_dot(u, v),
{
    fp_add(fp_add(fp_mul(u.e0, v.e0), fp_mul(u.e1, v.e1)), fp_mul(u.e2, v.e2))
}

/// The cross product.
pub fn cross(u: Vec3, v: Vec3) -> (r: Vec3)
    ensures
        r == spec_cross(u, v),
{
    Vec3 {
        e0: fp_sub(fp_mul(u.e1, v.e2), fp_mul(u.e2, v.e1)),
        e1: fp_sub(fp_mul(u.e2, v.e0), fp_mul(u.e0, v.e2)),
        e2: fp_sub(fp_mul(u.e0, v.e1), fp_mul(u.e1, v.e0)),
    }
}

/// The vector divided by its own length.
pub fn unit_vector(v: Vec3) -> (r: Vec3)
    ensures
        r == spec_unit(v),
{
    let len = v.length();
    v.div(len)
}

/// `v - 2*dot(v,n)*n`.
pub fn reflect(v: Vec3, n: Vec3) -> (r: Vec3)
    ensures
        r == spec_reflect(v, n),
{
    let d = dot(v, n);
    v.sub(n.scale(fp_mul(F_TWO, d)))
}

/// Snell refraction of the unit direction `uv` about the unit normal `n`.
pub fn refract(uv: Vec3, n: Vec3, etai_over_etat: u64) -> (r: Vec3)
    ensures
        r == spec_refract(uv, n, etai_over_etat),
{
    let cos_theta = fp_min(dot(uv.neg(), n), F_ONE);
    let r_out_perp = uv.add(n.scale(cos_theta)).scale(etai_over_etat);
    let r_out_parallel = n.scale(
        fp_neg(fp_sqrt(fp_abs(fp_sub(F_ONE, r_out_perp.length_squared())))),
    );
    r_out_perp.add(r_out_parallel)
}

/// A vector with each component drawn uniformly from `[0, 1)`.
pub fn random(rng: &mut Rng) -> (r: Vec3)
    requires
        old(rng).well_formed(),
    ensures
        r == spec_random(old(rng).state),
        final(rng).state == next64(next64(next64(old(rng).state))),
        final(rng).well_formed(),
{
    let a = rng.next_double();
    let b = rng.next_double();
    let c = rng.next_double();
    Vec3 { e0: a, e1: b, e2: c }
}

/// A vector with each component drawn uniformly from `[min, max)`.
pub fn random_range(min: u64, max: u64, rng: &mut Rng) -> (r: Vec3)
    requires
        old(rng).well_formed(),
    ensures
        r == spec_random_range(old(rng).state, min, max),
        final(rng).state == next64(next64(next64(old(rng).state))),
        final(rng).well_formed(),
{
    let a = rng.next_double_range(min, max);
    let b = rng.next_double_range(min, max);
    let c = rng.next_double_range(min, max);
    Vec3 { e0: a, e1: b, e2: c }
}

/// How many draws the rejection sampler tries before it gives up. With an
/// acceptance probability of about 0.52 per draw, exhaustion is
/// unobservable in practice.
pub const REJECTION_FUEL: u64 = 10000;

/// The exact outcome of the bounded rejection sampler from generator state
/// `s`: the first of at most `fuel` draws from `[-1,1)^3` that passes the
/// acceptance test, paired with the state the draws leave behind; the zero
/// vector if every draw is rejected.
pub open spec fn spec_rejection_sample(s: u64, fuel: nat) -> (Vec3, u64)
    decreases fuel,
{
    if fuel == 0 {
        (spec_zero(), s)
    } else {
        let p = spec_random_range(s, F_NEG_ONE, F_ONE);
        let s3 = next64(next64(next64(s)));
        if !le_bits(F_ONE, spec_length_squared(p)) {
            (p, s3)
        } else {
            spec_rejection_sample(s3, (fuel - 1) as nat)
        }
    }
}

/// The exact outcome of drawing a unit vector from generator state `s`: the
/// accepted in-ball point normalized, with the state it leaves behind.
pub open spec fn spec_unit_sample(s: u64) -> (Vec3, u64) {
    (spec_unit(spec_rejection_sample(s, REJECTION_FUEL as nat).0), spec_rejection_sample(
        s,
        REJECTION_FUEL as nat,
    ).1)
}

/// Rejection-sample a point inside the unit ball: draw from `[-1,1)^3` and
/// keep the first draw whose squared length passes the acceptance test.
/// The draw loop is bounded; if no draw is accepted the zero vector is
/// returned, an event the acceptance probability of about 0.52 per draw
/// makes unobservable in practice. The result and the state left behind are
/// exactly the sampler's outcome from the starting state.
pub fn random_in_unit_sphere(rng: &mut Rng) -> (r: Vec3)
    requires
        old(rng).well_formed(),
    ensures
        r == spec_rejection_sample(old(rng).state, REJECTION_FUEL as nat).0,
        final(rng).state == spec_rejection_sample(old(rng).state, REJECTION_FUEL as nat).1,
        final(rng).well_formed(),
        !le_bits(F_ONE, spec_length_squared(r)) || r == spec_zero(),
{
    let mut attempts: u64 = 0;
    while attempts < REJECTION_FUEL
        invariant
            rng.well_formed(),
            attempts <= REJECTION_FUEL,
            spec_rejection_sample(old(rng).state, REJECTION_FUEL as nat) == spec_rejection_sample(
                rng.state,
                (REJECTION_FUEL - attempts) as nat,
            ),
        decreases REJECTION_FUEL - attempts,
    {
        let p = random_range(F_NEG_ONE, F_ONE, rng);
        if !fp_le(F_ONE, p.length_squared()) {
            return p;
        }
        attempts = attempts + 1;
    }
    Vec3 { e0: F_ZERO, e1: F_ZERO, e2: F_ZERO }
}

/// A point inside the unit ball, normalized to the unit sphere: exactly the
/// unit draw of the starting generator state.
pub fn random_unit_vector(rng: &mut Rng) -> (r: Vec3)
    requires
        old(rng).well_formed(),
    ensures
        r == spec_unit_sample(old(rng).state).0,
        final(rng).state == spec_unit_sample(old(rng).state).1,
        final(rng).well_formed(),
{
    let p = random_in_unit_sphere(rng);
    unit_vector(p)
}

} // verus!
