//! Rays, spheres, and the analytic ray/sphere intersection.
//!
//! The intersection is the projection form: the sphere center is projected
//! onto the ray, which is numerically more robust than the naive quadratic.

use vstd::prelude::*;

use crate::fp;
use crate::fp::{fp_le, fp_lt, fp_mul, fp_sub};
use crate::sqrt;
use crate::sqrt::fp_sqrt;
use crate::vec::{add_spec, div_spec, dot_spec, length_spec, scale_spec, sub_spec, Vec3};

verus! {

/// A sphere: a center and a radius.  Callers keep the radius positive.
#[derive(PartialEq, Eq, Structural, Clone, Copy, Debug)]
pub struct Sphere {
    pub center: Vec3,
    pub radius: u32,
}

/// A half-line from `origin` along `direction`.  Direction should always be
/// a unit vector (have length 1): the intersection math relies on it.
#[derive(PartialEq, Eq, Structural, Clone, Copy, Debug)]
pub struct Ray {
    pub origin: Vec3,
    pub direction: Vec3,
}

/// The near-side crossing of a ray and a sphere: the ray parameter of the
/// crossing, the crossing point, and the outward unit surface normal there.
#[derive(PartialEq, Eq, Structural, Clone, Copy, Debug)]
pub struct Hit {
    pub distance: u32,
    pub position: Vec3,
    pub normal: Vec3,
}

/// The signed ray parameter of the point on `r` closest to the center of
/// `s`: the projection of the center offset onto the ray direction.
pub open spec fn closest_approach_spec(r: Ray, s: Sphere) -> u32 {
    dot_spec(r.direction, sub_spec(s.center, r.origin))
}

/// The distance from the closest point on `r` to the center of `s`.
pub open spec fn center_distance_spec(r: Ray, s: Sphere) -> u32 {
    let t_closest = closest_approach_spec(r, s);
    let closest_point = add_spec(r.origin, scale_spec(t_closest, r.direction));
    length_spec(sub_spec(s.center, closest_point))
}

/// What the analytic intersection returns: `None` when the sphere center
/// lies behind the ray or the ray passes the center farther than the radius;
/// otherwise the near crossing, its position, and the outward normal.
pub open spec fn intersect_spec(r: Ray, s: Sphere) -> Option<Hit> {
    let t_closest = closest_approach_spec(r, s);
    if fp_lt(t_closest, fp::POS_ZERO) {
        None
    } else {
        let d = center_distance_spec(r, s);
        if !fp_le(d, s.radius) {
            None
        } else {
            let half_chord = fp_sqrt(fp_sub(fp_mul(s.radius, s.radius), fp_mul(d, d)));
            let t_hit = fp_sub(t_closest, half_chord);
            let position = add_spec(r.origin, scale_spec(t_hit, r.direction));
            let normal = div_spec(sub_spec(position, s.center), s.radius);
            Some(Hit { distance: t_hit, position, normal })
        }
    }
}

impl Ray {
    /// The analytic intersection of this ray with `sphere`: `None` on a
    /// miss, otherwise the near crossing with its outward normal.
    pub fn intersect(&self, sphere: &Sphere) -> (res: Option<Hit>)
        ensures
            res == intersect_spec(*self, *sphere),
    {
        // A vector from the beginning of the ray to the center of the
        // sphere, projected onto the ray direction: the signed distance
        // along the ray to the point closest to the center.
        let offset = sphere.center.sub(&self.origin);
        let t_closest = self.direction.dot(&offset);

        // Intersections "behind" the ray are not considered.
        if fp::lt_bits(t_closest, fp::POS_ZERO) {
            return None;
        }

        // The distance from that closest point to the center.
        let closest_point = self.origin.add(&Vec3::scale(t_closest, &self.direction));
        let d = sphere.center.sub(&closest_point).length();

        // Farther from the center than the radius: a miss.
        if !fp::le_bits(d, sphere.radius) {
            return None;
        }

        // The near crossing: half a chord short of the closest approach.
        let half_chord = sqrt::sqrt_bits(
            fp::sub_bits(
                fp::mul_bits(sphere.radius, sphere.radius),
                fp::mul_bits(d, d),
            ),
        );
        let t_hit = fp::sub_bits(t_closest, half_chord);
        let position = self.origin.add(&Vec3::scale(t_hit, &self.direction));
        let normal = position.sub(&sphere.center).div(sphere.radius);
        Some(Hit { distance: t_hit, position, normal })
    }

    /// Whether this ray crosses `sphere` at all.
    pub fn intersects_sphere(&self, sphere: &Sphere) -> (res: bool)
        ensures
            res == intersect_spec(*self, *sphere) is Some,
    {
        self.intersect(sphere).is_some()
    }
}

/// A ray whose closest approach to the center is behind its origin misses:
/// when the projection is negative, the intersection returns `None`.
pub proof fn lemma_behind_camera_misses(r: Ray, s: Sphere)
    requires
        fp_lt(closest_approach_spec(r, s), fp::POS_ZERO),
    ensures
        intersect_spec(r, s) is None,
{
}

/// A ray that passes the center farther than the radius misses: when the
/// radius is below the center distance, the intersection returns `None`.
pub proof fn lemma_wide_pass_misses(r: Ray, s: Sphere)
    requires
        fp_lt(s.radius, center_distance_spec(r, s)),
    ensures
        intersect_spec(r, s) is None,
{
}

} // verus!
