//! Scenes and the closest-hit search.
//!
//! A scene is an ordered sequence of spheres; the order matters, because the
//! sphere index drives the foreground gradient and breaks distance ties.

use vstd::prelude::*;

use crate::fp::{fp_eq, fp_lt, lemma_fp_eq_not_lt, lemma_fp_lt_asymmetric};
use crate::geom::{intersect_spec, Hit, Ray, Sphere};

verus! {

/// A scene: an opaque coordinator-assigned frame number, passed through
/// unchanged, and the ordered spheres.
#[derive(Debug)]
pub struct Scene {
    pub frame: u64,
    pub spheres: Vec<Sphere>,
}

/// The closest hit of `r` among the first spheres of the sequence, with the
/// index of the sphere it lies on.  Walking the spheres in order, a later
/// hit replaces the best one only when its ray distance is strictly below,
/// so ties keep the earliest sphere.
pub open spec fn closest_hit_spec(r: Ray, spheres: Seq<Sphere>) -> Option<(int, Hit)>
    decreases spheres.len(),
{
    if spheres.len() == 0 {
        None
    } else {
        let i = spheres.len() - 1;
        let prev = closest_hit_spec(r, spheres.drop_last());
        match intersect_spec(r, spheres[i]) {
            None => prev,
            Some(h) => match prev {
                None => Some((i, h)),
                Some((j, hj)) => if fp_lt(h.distance, hj.distance) {
                    Some((i, h))
                } else {
                    Some((j, hj))
                },
            },
        }
    }
}

/// Whether the executable result mirrors the specification result.
pub open spec fn closest_hit_matches(res: Option<(usize, Hit)>, spec_res: Option<(int, Hit)>) -> bool {
    match res {
        None => spec_res is None,
        Some((i, h)) => spec_res == Some((i as int, h)),
    }
}

impl Scene {
    /// The hit of `r` with the smallest ray distance over all spheres of the
    /// scene, together with the index of the hit sphere; `None` when no
    /// sphere is crossed.  Ties keep the lowest-indexed sphere.
    pub fn closest_hit(&self, r: &Ray) -> (res: Option<(usize, Hit)>)
        ensures
            closest_hit_matches(res, closest_hit_spec(*r, self.spheres@)),
    {
        let mut best: Option<(usize, Hit)> = None;
        let n = self.spheres.len();
        for i in 0..n
            invariant
                n == self.spheres.len(),
                closest_hit_matches(best, closest_hit_spec(*r, self.spheres@.take(i as int))),
        {
            proof {
                assert(self.spheres@.take(i + 1).drop_last() =~= self.spheres@.take(i as int));
                assert(self.spheres@.take(i + 1).last() == self.spheres@[i as int]);
            }
            match r.intersect(&self.spheres[i]) {
                None => {},
                Some(h) => {
                    match best {
                        None => {
                            best = Some((i, h));
                        },
                        Some((j, hj)) => {
                            if crate::fp::lt_bits(h.distance, hj.distance) {
                                best = Some((i, h));
                            }
                        },
                    }
                },
            }
        }
        proof {
            assert(self.spheres@.take(n as int) =~= self.spheres@);
        }
        best
    }
}

/// A returned closest hit names a sphere of the scene, and is exactly that
/// sphere's intersection with the ray.
pub proof fn lemma_closest_hit_index(r: Ray, spheres: Seq<Sphere>)
    ensures
        closest_hit_spec(r, spheres) matches Some((i, h)) ==> 0 <= i < spheres.len()
            && intersect_spec(r, spheres[i]) == Some(h),
    decreases spheres.len(),
{
    if spheres.len() > 0 {
        lemma_closest_hit_index(r, spheres.drop_last());
    }
}

/// Over two spheres both crossed by the ray, the hit with the smaller ray
/// distance is returned; on equal distances the first sphere is kept.
pub proof fn lemma_two_spheres_nearest_wins(r: Ray, s0: Sphere, s1: Sphere, h0: Hit, h1: Hit)
    requires
        intersect_spec(r, s0) == Some(h0),
        intersect_spec(r, s1) == Some(h1),
    ensures
        fp_lt(h1.distance, h0.distance) ==> closest_hit_spec(r, seq![s0, s1]) == Some((1int, h1)),
        fp_lt(h0.distance, h1.distance) ==> closest_hit_spec(r, seq![s0, s1]) == Some((0int, h0)),
        fp_eq(h0.distance, h1.distance) ==> closest_hit_spec(r, seq![s0, s1]) == Some((0int, h0)),
{
    let spheres = seq![s0, s1];
    assert(spheres.drop_last() =~= seq![s0]);
    assert(seq![s0].drop_last() =~= Seq::<Sphere>::empty());
    assert(closest_hit_spec(r, Seq::<Sphere>::empty()) is None);
    assert(seq![s0].len() == 1 && seq![s0][0] == s0);
    assert(closest_hit_spec(r, seq![s0]) == Some((0int, h0)));
    assert(spheres.len() == 2 && spheres[1] == s1);
    lemma_fp_lt_asymmetric(h0.distance, h1.distance);
    if fp_eq(h0.distance, h1.distance) {
        lemma_fp_eq_not_lt(h0.distance, h1.distance);
    }
}

} // verus!
