//! The scene container: an aggregate of primitives queried as one hittable
//! by the shrinking-interval nearest-hit scan.

use vstd::prelude::*;

use crate::fp::{is_nan_bits, lt_bits, le_bits, F_ZERO};
use crate::hittable::{HitRecord, Hittable};
use crate::ray::Ray;
use crate::sphere::{Sphere, spec_sphere_hit, spec_sphere_root, spec_sphere_root1,
    spec_sphere_root2, spec_sphere_discriminant};

verus! {

/// A scene: the primitives it holds, tested exhaustively.
pub struct HittableList {
    pub objects: Vec<Sphere>,
}

/// The left-to-right scan: each primitive is tested over `(t_min, closest)`
/// where `closest` is the parameter of the best hit so far (initially the
/// caller's upper bound), and each accepted hit replaces the best and
/// shrinks the interval.
pub open spec fn spec_scan(
    objects: Seq<Sphere>,
    r: Ray,
    t_min: u64,
    closest: u64,
    best: Option<HitRecord>,
) -> Option<HitRecord>
    decreases objects.len(),
{
    if objects.len() == 0 {
        best
    } else {
        match spec_sphere_hit(objects[0], r, t_min, closest) {
            Some(h) => spec_scan(objects.drop_first(), r, t_min, h.t, Some(h)),
            None => spec_scan(objects.drop_first(), r, t_min, closest, best),
        }
    }
}

/// Every record the scan can return carries a material: the per-sphere
/// test attaches one to every record it builds, and the running best is
/// only ever replaced by such a record.
pub proof fn lemma_scan_mat(
    objects: Seq<Sphere>,
    r: Ray,
    t_min: u64,
    closest: u64,
    best: Option<HitRecord>,
)
    requires
        best is Some ==> best->0.mat is Some,
    ensures
        spec_scan(objects, r, t_min, closest, best) is Some ==> spec_scan(
            objects,
            r,
            t_min,
            closest,
            best,
        )->0.mat is Some,
    decreases objects.len(),
{
    if objects.len() > 0 {
        match spec_sphere_hit(objects[0], r, t_min, closest) {
            Some(h) => {
                lemma_scan_mat(objects.drop_first(), r, t_min, h.t, Some(h));
            },
            None => {
                lemma_scan_mat(objects.drop_first(), r, t_min, closest, best);
            },
        }
    }
}

/// The nearest hit among the primitives each tested individually over the
/// same interval: the fold that keeps the hit with the smaller parameter,
/// the earlier primitive winning ties.
pub open spec fn spec_nearest_individual(
    objects: Seq<Sphere>,
    r: Ray,
    t_min: u64,
    t_max: u64,
) -> Option<HitRecord>
    decreases objects.len(),
{
    if objects.len() == 0 {
        None
    } else {
        let h = spec_sphere_hit(objects[0], r, t_min, t_max);
        let rest = spec_nearest_individual(objects.drop_first(), r, t_min, t_max);
        match (h, rest) {
            (Some(h0), Some(h1)) => if lt_bits(h1.t, h0.t) {
                Some(h1)
            } else {
                Some(h0)
            },
            (Some(h0), None) => Some(h0),
            (None, x) => x,
        }
    }
}

/// Geometric doubles: every sphere whose discriminant is nonnegative has
/// its two candidate roots real and in order. Only degenerate bit patterns
/// (a NaN coordinate, a negative squared length) violate this.
pub open spec fn spec_roots_ordered(objects: Seq<Sphere>, r: Ray) -> bool {
    forall|i: int|
        0 <= i < objects.len() ==> (!lt_bits(
            spec_sphere_discriminant(#[trigger] objects[i], r),
            F_ZERO,
        ) ==> le_bits(spec_sphere_root1(objects[i], r), spec_sphere_root2(objects[i], r)))
}

/// Shrinking the upper bound of a sphere test filters its answer: under a
/// tighter bound the test returns the same hit when its parameter still
/// fits, and nothing otherwise.
proof fn lemma_sphere_hit_mono(s: Sphere, r: Ray, t_min: u64, b1: u64, b2: u64)
    requires
        le_bits(b2, b1),
        !lt_bits(spec_sphere_discriminant(s, r), F_ZERO) ==> le_bits(
            spec_sphere_root1(s, r),
            spec_sphere_root2(s, r),
        ),
    ensures
        spec_sphere_hit(s, r, t_min, b2) == if spec_sphere_hit(s, r, t_min, b1) is Some
            && lt_bits(spec_sphere_hit(s, r, t_min, b1)->0.t, b2) {
            spec_sphere_hit(s, r, t_min, b1)
        } else {
            None::<HitRecord>
        },
{
}

/// The individual-nearest fold filters the same way under a tighter bound.
proof fn lemma_nearest_individual_mono(objects: Seq<Sphere>, r: Ray, t_min: u64, b1: u64, b2: u64)
    requires
        le_bits(b2, b1),
        spec_roots_ordered(objects, r),
    ensures
        spec_nearest_individual(objects, r, t_min, b2) == if spec_nearest_individual(
            objects,
            r,
            t_min,
            b1,
        ) is Some && lt_bits(spec_nearest_individual(objects, r, t_min, b1)->0.t, b2) {
            spec_nearest_individual(objects, r, t_min, b1)
        } else {
            None::<HitRecord>
        },
    decreases objects.len(),
{
    if objects.len() > 0 {
        assert(objects[0] == objects[0 as int]);
        lemma_sphere_hit_mono(objects[0], r, t_min, b1, b2);
        assert(spec_roots_ordered(objects.drop_first(), r)) by {
            assert(forall|i: int|
                0 <= i < objects.drop_first().len() ==> objects.drop_first()[i] == objects[i + 1]);
        }
        lemma_nearest_individual_mono(objects.drop_first(), r, t_min, b1, b2);
    }
}

/// The shrinking-interval scan finds the globally nearest hit: over any
/// scene of geometric doubles it returns exactly what testing every
/// primitive individually at the scan's bound and keeping the smallest
/// parameter would, falling back to the accumulator when nothing is hit.
proof fn lemma_scan_is_nearest_from(
    objects: Seq<Sphere>,
    r: Ray,
    t_min: u64,
    closest: u64,
    best: Option<HitRecord>,
)
    requires
        spec_roots_ordered(objects, r),
        !is_nan_bits(closest),
    ensures
        spec_scan(objects, r, t_min, closest, best) == ({
            let ni = spec_nearest_individual(objects, r, t_min, closest);
            if ni is Some {
                ni
            } else {
                best
            }
        }),
    decreases objects.len(),
{
    if objects.len() > 0 {
        assert(spec_roots_ordered(objects.drop_first(), r)) by {
            assert(forall|i: int|
                0 <= i < objects.drop_first().len() ==> objects.drop_first()[i] == objects[i + 1]);
        }
        match spec_sphere_hit(objects[0], r, t_min, closest) {
            Some(hh) => {
                // The accepted root is one of the ordered candidates, so it
                // is not NaN and lies strictly under the bound.
                assert(!is_nan_bits(hh.t) && lt_bits(hh.t, closest));
                assert(le_bits(hh.t, closest));
                lemma_nearest_individual_mono(objects.drop_first(), r, t_min, closest, hh.t);
                lemma_scan_is_nearest_from(objects.drop_first(), r, t_min, hh.t, Some(hh));
            },
            None => {
                lemma_scan_is_nearest_from(objects.drop_first(), r, t_min, closest, best);
            },
        }
    }
}

/// Scene aggregation returns the globally nearest hit: for any scene of
/// geometric doubles (no NaN upper bound, each sphere's candidate roots in
/// order), the scan's answer equals the nearest of the individually tested
/// hits, ties going to the earlier primitive — so insertion order never
/// changes which parameter is returned.
pub proof fn lemma_scene_hit_is_nearest(objects: Seq<Sphere>, r: Ray, t_min: u64, t_max: u64)
    requires
        spec_roots_ordered(objects, r),
        !is_nan_bits(t_max),
    ensures
        spec_scan(objects, r, t_min, t_max, None::<HitRecord>) == spec_nearest_individual(
            objects,
            r,
            t_min,
            t_max,
        ),
{
    lemma_scan_is_nearest_from(objects, r, t_min, t_max, None::<HitRecord>);
}

/// The quantified reading of the individual-nearest fold: its answer, when
/// there is one, is itself one of the individually tested hits, and its
/// parameter is less than or equal to that of every individually tested
/// hit; and there is an answer exactly when some primitive hits.
pub proof fn lemma_nearest_individual_is_min(objects: Seq<Sphere>, r: Ray, t_min: u64, t_max: u64)
    requires
        spec_roots_ordered(objects, r),
    ensures
        (spec_nearest_individual(objects, r, t_min, t_max) is Some <==> exists|i: int|
            0 <= i < objects.len() && #[trigger] spec_sphere_hit(objects[i], r, t_min, t_max)
                is Some),
        spec_nearest_individual(objects, r, t_min, t_max) is Some ==> exists|i: int|
            0 <= i < objects.len() && #[trigger] spec_sphere_hit(objects[i], r, t_min, t_max)
                == spec_nearest_individual(objects, r, t_min, t_max),
        spec_nearest_individual(objects, r, t_min, t_max) is Some ==> forall|i: int|
            0 <= i < objects.len() && #[trigger] spec_sphere_hit(objects[i], r, t_min, t_max)
                is Some ==> le_bits(
                spec_nearest_individual(objects, r, t_min, t_max)->0.t,
                spec_sphere_hit(objects[i], r, t_min, t_max)->0.t,
            ),
    decreases objects.len(),
{
    if objects.len() > 0 {
        let rest = objects.drop_first();
        assert(spec_roots_ordered(rest, r)) by {
            assert(forall|i: int| 0 <= i < rest.len() ==> rest[i] == objects[i + 1]);
        }
        lemma_nearest_individual_is_min(rest, r, t_min, t_max);
        assert(forall|i: int| 0 <= i < rest.len() ==> rest[i] == objects[i + 1]);
        assert(objects[0] == objects[0 as int]);
        let ni = spec_nearest_individual(objects, r, t_min, t_max);
        let h0 = spec_sphere_hit(objects[0], r, t_min, t_max);
        let nr = spec_nearest_individual(rest, r, t_min, t_max);
        if exists|i: int|
            0 <= i < objects.len() && #[trigger] spec_sphere_hit(objects[i], r, t_min, t_max)
                is Some {
            let k = choose|k: int|
                0 <= k < objects.len() && #[trigger] spec_sphere_hit(objects[k], r, t_min, t_max)
                    is Some;
            if k > 0 {
                assert(spec_sphere_hit(rest[k - 1], r, t_min, t_max) is Some);
            }
            assert(ni is Some);
        }
        if ni is Some {
            // The answer is one of the hits: the head, or a hit of the
            // tail re-indexed one to the right.
            if h0 is Some && (nr is None || !lt_bits(nr->0.t, h0->0.t)) {
                assert(spec_sphere_hit(objects[0 as int], r, t_min, t_max) == ni);
            } else {
                let j = choose|j: int|
                    0 <= j < rest.len() && #[trigger] spec_sphere_hit(rest[j], r, t_min, t_max)
                        == nr;
                assert(spec_sphere_hit(objects[j + 1], r, t_min, t_max) == ni);
            }
            // The accepted parameters are ordered roots, hence not NaN, so
            // the minimum fold compares them totally.
            assert forall|i: int|
                0 <= i < objects.len() && #[trigger] spec_sphere_hit(objects[i], r, t_min, t_max)
                    is Some implies le_bits(
                ni->0.t,
                spec_sphere_hit(objects[i], r, t_min, t_max)->0.t,
            ) by {
                if i > 0 {
                    assert(spec_sphere_hit(rest[i - 1], r, t_min, t_max) is Some);
                }
            }
        }
    }
}

/// The same law read off for the scenario of two overlapping spheres: the
/// scan's answer is exactly the individually tested hit with the smaller
/// parameter, the first sphere winning ties. The hypotheses rule out only
/// degenerate doubles that no geometric scene produces: NaN interval
/// bounds, and a sphere whose two candidate roots come disordered.
pub proof fn lemma_two_sphere_nearest(s1: Sphere, s2: Sphere, r: Ray, t_min: u64, t_max: u64)
    requires
        !is_nan_bits(t_min),
        !is_nan_bits(t_max),
        !lt_bits(spec_sphere_discriminant(s1, r), F_ZERO) ==> le_bits(
            spec_sphere_root1(s1, r),
            spec_sphere_root2(s1, r),
        ),
        !lt_bits(spec_sphere_discriminant(s2, r), F_ZERO) ==> le_bits(
            spec_sphere_root1(s2, r),
            spec_sphere_root2(s2, r),
        ),
    ensures
        ({
            let res = spec_scan(seq![s1, s2], r, t_min, t_max, None::<HitRecord>);
            let h1 = spec_sphere_hit(s1, r, t_min, t_max);
            let h2 = spec_sphere_hit(s2, r, t_min, t_max);
            res == if h1 is None {
                h2
            } else if h2 is Some && lt_bits(h2->0.t, h1->0.t) {
                h2
            } else {
                h1
            }
        }),
{
    reveal_with_fuel(spec_scan, 3);
    let objs = seq![s1, s2];
    assert(objs.drop_first() =~= seq![s2]);
    assert(seq![s2].drop_first() =~= Seq::<Sphere>::empty());
    assert(objs[0] == s1);
    assert(seq![s2][0] == s2);
    let h1 = spec_sphere_hit(s1, r, t_min, t_max);
    match h1 {
        None => {
            // The bound never shrinks, so the second test is the
            // individual one.
            assert(spec_scan(objs, r, t_min, t_max, None::<HitRecord>) == spec_sphere_hit(
                s2,
                r,
                t_min,
                t_max,
            ));
        },
        Some(rec1) => {
            let t1 = rec1.t;
            let h2 = spec_sphere_hit(s2, r, t_min, t_max);
            let h2s = spec_sphere_hit(s2, r, t_min, t1);
            // The accepted first root lies strictly inside the interval.
            assert(!le_bits(t_max, t1) && !le_bits(t1, t_min));
            if !lt_bits(spec_sphere_discriminant(s2, r), F_ZERO) {
                // The candidate roots are real and ordered, so whichever
                // the shrunken test accepts, the individual test accepts
                // the same root, and it beats the first sphere's.
                assert(spec_sphere_root(s2, r, t_min, t1) is Some
                    ==> spec_sphere_root(s2, r, t_min, t1) == spec_sphere_root(
                    s2,
                    r,
                    t_min,
                    t_max,
                ));
                assert(h2s is None ==> (h2 is Some ==> !lt_bits(h2->0.t, t1)));
            }
        },
    }
}

impl HittableList {
    /// An empty scene.
    pub fn new() -> (r: HittableList)
        ensures
            r.objects@ == Seq::<Sphere>::empty(),
    {
        HittableList { objects: Vec::new() }
    }

    /// Append a primitive; insertion order does not change what the scan
    /// returns for a nearest hit, only which equal-parameter hit wins.
    pub fn add(&mut self, object: Sphere)
        ensures
            final(self).objects@ == old(self).objects@.push(object),
    {
        self.objects.push(object);
    }

    /// How many primitives the scene holds.
    pub fn len(&self) -> (n: usize)
        ensures
            n == self.objects@.len(),
    {
        self.objects.len()
    }
}

impl Hittable for HittableList {
    open spec fn hit_spec(&self, r: Ray, t_min: u64, t_max: u64) -> Option<HitRecord> {
        spec_scan(self.objects@, r, t_min, t_max, None)
    }

    fn hit(&self, r: &Ray, t_min: u64, t_max: u64, rec: &mut HitRecord) -> (b: bool) {
        let ghost orig_rec = *rec;
        let mut hit_anything = false;
        let mut closest_so_far = t_max;
        let ghost mut best: Option<HitRecord> = None;
        let mut i: usize = 0;
        assert(self.objects@.skip(0) =~= self.objects@);
        while i < self.objects.len()
            invariant
                i <= self.objects@.len(),
                spec_scan(self.objects@.skip(i as int), *r, t_min, closest_so_far, best)
                    == spec_scan(self.objects@, *r, t_min, t_max, None::<HitRecord>),
                hit_anything == (best is Some),
                best is Some ==> *rec == best->0 && closest_so_far == best->0.t,
                best is None ==> *rec == orig_rec && closest_so_far == t_max,
            decreases self.objects@.len() - i,
        {
            assert(self.objects@.skip(i as int)[0] == self.objects@[i as int]);
            assert(self.objects@.skip(i as int).drop_first() =~= self.objects@.skip(i as int + 1));
            let object = &self.objects[i];
            if object.hit(r, t_min, closest_so_far, rec) {
                hit_anything = true;
                closest_so_far = rec.t;
                proof {
                    best = Some(*rec);
                }
            }
            i = i + 1;
        }
        hit_anything
    }
}

} // verus!
