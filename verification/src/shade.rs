//! Shading: gradient material, directional diffuse lighting, and one level
//! of specular reflection.
//!
//! The foreground palette position of sphere `i` among `n` is the exact
//! rational `i·(p-1)/(n-1)` (for `n >= 2`; a single-sphere scene sits at
//! position zero).  Its integer part picks the palette entries and is
//! computed in integer arithmetic, so the indices provably stay inside the
//! palette; only the fractional blending weight goes through rounded
//! arithmetic.

use vstd::arithmetic::div_mod::lemma_mod_division_less_than_divisor;
use vstd::prelude::*;

use crate::fp;
use crate::fp::{fp_add, fp_div, fp_mul, fp_neg, fp_of_uint, fp_sub};
use crate::geom::{Ray, Sphere};
use crate::scene::{closest_hit_spec, lemma_closest_hit_index, Scene};
use crate::vec::{add_spec, dot_spec, reflect_spec, scale_spec, sub_spec, Vec3};

verus! {

/// Bit pattern of the x component of the fixed unit light direction, -4/9.
pub const LIGHT_X_BITS: u32 = 0xbee38e39;

/// Bit pattern of the y component of the fixed unit light direction, 8/9.
pub const LIGHT_Y_BITS: u32 = 0x3f638e39;

/// Bit pattern of the z component of the fixed unit light direction, 1/9.
pub const LIGHT_Z_BITS: u32 = 0x3de38e39;

/// Bit pattern of the reflection origin offset, 1e-6.
pub const EPSILON_BITS: u32 = 0x358637bd;

/// Bit pattern of the reflectivity ceiling, 0.7.
pub const SEVEN_TENTHS_BITS: u32 = 0x3f333333;

/// The fixed light direction, a design constant of the worker.
pub open spec fn light_spec() -> Vec3 {
    Vec3 { x: LIGHT_X_BITS, y: LIGHT_Y_BITS, z: LIGHT_Z_BITS }
}

/// The outcome of evaluating one ray: whether anything was hit, and the
/// shaded color.
#[derive(PartialEq, Clone, Debug)]
pub struct Outcome {
    pub hit: bool,
    pub color: Option<Vec3>,
}

/// The immutable worker configuration: the foreground gradient palette
/// (never empty), the background color, the worker's name, and the
/// coordinator address.
pub struct Config {
    pub foreground: Vec<Vec3>,
    pub background: Vec3,
    pub name: String,
    pub address: String,
}

/// Raised when a configuration cannot be used at all.
#[derive(PartialEq, Eq, Structural, Clone, Copy, Debug)]
pub enum ConfigError {
    EmptyPalette,
}

impl Config {
    /// A configuration is well-formed when the palette has an entry.
    pub open spec fn wf(&self) -> bool {
        self.foreground.len() >= 1
    }

    /// Build a configuration; an empty palette is rejected.
    pub fn new(foreground: Vec<Vec3>, background: Vec3, name: String, address: String) -> (r:
        Result<Config, ConfigError>)
        ensures
            foreground.len() >= 1 <==> r is Ok,
            r matches Ok(c) ==> c.wf() && c.foreground == foreground && c.background == background,
            r is Err ==> r == Err::<Config, ConfigError>(ConfigError::EmptyPalette),
    {
        if foreground.len() == 0 {
            Err(ConfigError::EmptyPalette)
        } else {
            Ok(Config { foreground, background, name, address })
        }
    }
}

/// The integer part of the palette position of sphere `i` among `n`, held
/// to the palette: `min(i·(p-1)/(n-1), p-1)`, and zero for a single-sphere
/// scene.
pub open spec fn gradient_lo_spec(i: nat, n: nat, p: nat) -> nat {
    if n <= 1 || p == 0 {
        0
    } else {
        let q = (i * (p - 1)) / (n - 1);
        if q > p - 1 {
            (p - 1) as nat
        } else {
            q as nat
        }
    }
}

/// The upper palette index: the next entry when the position has a
/// fractional part and the palette allows, else the lower one.
pub open spec fn gradient_hi_spec(i: nat, n: nat, p: nat) -> nat {
    let lo = gradient_lo_spec(i, n, p);
    if rem_of(i, n, p) == 0 {
        lo
    } else if lo + 1 <= p - 1 {
        lo + 1
    } else {
        lo
    }
}

/// The remainder of `i·(p-1)` by `n-1`, zero for the degenerate extents.
pub open spec fn rem_of(i: nat, n: nat, p: nat) -> nat {
    if n <= 1 || p == 0 {
        0
    } else {
        ((i * (p - 1)) % (n - 1)) as nat
    }
}

/// The gradient material color of sphere `i` among `n`: the palette entries
/// around the position, blended by the rounded fractional weight
/// `f = rem/(n-1)` as `(1-f)·lower + f·upper`.
pub open spec fn diffuse_spec(fg: Seq<Vec3>, i: nat, n: nat) -> Vec3 {
    let p = fg.len();
    let lo = gradient_lo_spec(i, n, p);
    let hi = gradient_hi_spec(i, n, p);
    if lo == hi {
        fg[lo as int]
    } else {
        let f = fp_div(fp_of_uint(rem_of(i, n, p) as usize), fp_of_uint((n - 1) as usize));
        add_spec(
            scale_spec(fp_sub(fp::ONE_BITS, f), fg[lo as int]),
            scale_spec(f, fg[hi as int]),
        )
    }
}

/// The shaded color of a ray: the background on a miss; on a hit, the
/// gradient material — mixed with the recursively shaded reflection while
/// the bounce budget lasts — plus the additive lightness term
/// `(-dot(light, normal))` on every component.
pub open spec fn shade_color_spec(
    r: Ray,
    spheres: Seq<Sphere>,
    fg: Seq<Vec3>,
    bg: Vec3,
    bounces: nat,
) -> Vec3
    decreases bounces,
{
    match closest_hit_spec(r, spheres) {
        None => bg,
        Some((i, h)) => {
            let diffuse = diffuse_spec(fg, i as nat, spheres.len());
            let material = if bounces == 0 {
                diffuse
            } else {
                let refl_dir = reflect_spec(r.direction, h.normal);
                let refl_origin = add_spec(h.position, scale_spec(EPSILON_BITS, refl_dir));
                let c_refl = shade_color_spec(
                    Ray { origin: refl_origin, direction: refl_dir },
                    spheres,
                    fg,
                    bg,
                    (bounces - 1) as nat,
                );
                let dn = dot_spec(h.normal, r.direction);
                let k = fp_mul(fp_sub(fp::ONE_BITS, fp_mul(dn, dn)), SEVEN_TENTHS_BITS);
                add_spec(scale_spec(fp_sub(fp::ONE_BITS, k), diffuse), scale_spec(k, c_refl))
            };
            let lightness = fp_neg(dot_spec(light_spec(), h.normal));
            add_spec(material, Vec3 { x: lightness, y: lightness, z: lightness })
        },
    }
}

/// The whole shading outcome: the shader is total, so the color is always
/// present.
pub open spec fn shade_spec(
    r: Ray,
    spheres: Seq<Sphere>,
    fg: Seq<Vec3>,
    bg: Vec3,
    bounces: nat,
) -> Outcome {
    Outcome {
        hit: closest_hit_spec(r, spheres) is Some,
        color: Some(shade_color_spec(r, spheres, fg, bg, bounces)),
    }
}

/// The fixed light direction as a value.
fn light_vector() -> (v: Vec3)
    ensures
        v == light_spec(),
{
    Vec3 { x: LIGHT_X_BITS, y: LIGHT_Y_BITS, z: LIGHT_Z_BITS }
}

/// The gradient material color of sphere `i` among `n`.
fn diffuse_color(fg: &Vec<Vec3>, i: usize, n: usize) -> (c: Vec3)
    requires
        fg.len() >= 1,
        i < n,
    ensures
        c == diffuse_spec(fg@, i as nat, n as nat),
{
    let p = fg.len();
    if n <= 1 {
        return fg[0];
    }
    proof {
        assert((i as nat) * ((p - 1) as nat) <= 0xffffffffffffffff * 0xffffffffffffffff)
            by (nonlinear_arith)
            requires
                i as nat <= 0xffffffffffffffff,
                (p - 1) as nat <= 0xffffffffffffffff,
        {
        }
    }
    let num: u128 = (i as u128) * ((p - 1) as u128);
    let den: u128 = (n - 1) as u128;
    proof {
        lemma_mod_division_less_than_divisor(num as int, den as int);
    }
    let q128: u128 = num / den;
    let rem128: u128 = num % den;
    let lo: usize = if q128 > (p - 1) as u128 {
        p - 1
    } else {
        q128 as usize
    };
    let hi: usize = if rem128 == 0 {
        lo
    } else if lo + 1 <= p - 1 {
        lo + 1
    } else {
        lo
    };
    if lo == hi {
        fg[lo]
    } else {
        let rem: usize = rem128 as usize;
        let f = fp::div_bits(fp::uint_to_bits(rem), fp::uint_to_bits(n - 1));
        Vec3::scale(fp::sub_bits(fp::ONE_BITS, f), &fg[lo]).add(&Vec3::scale(f, &fg[hi]))
    }
}

/// Shade one ray against the scene: `Outcome { hit: false, color:
/// background }` on a miss; on a hit, the gradient material with one level
/// of reflection per remaining bounce, lit by the fixed light direction.
pub fn shade(r: &Ray, scene: &Scene, config: &Config, bounces: u32) -> (o: Outcome)
    requires
        config.wf(),
    ensures
        o == shade_spec(*r, scene.spheres@, config.foreground@, config.background, bounces as nat),
    decreases bounces,
{
    proof {
        lemma_closest_hit_index(*r, scene.spheres@);
    }
    match scene.closest_hit(r) {
        None => Outcome { hit: false, color: Some(config.background) },
        Some((i, h)) => {
            let diffuse = diffuse_color(&config.foreground, i, scene.spheres.len());
            let material = if bounces == 0 {
                diffuse
            } else {
                let refl_dir = r.direction.reflect(&h.normal);
                let refl_origin = h.position.add(&Vec3::scale(EPSILON_BITS, &refl_dir));
                let refl_ray = Ray { origin: refl_origin, direction: refl_dir };
                let rec = shade(&refl_ray, scene, config, bounces - 1);
                let c_refl = match rec.color {
                    Some(c) => c,
                    None => {
                        proof {
                            assert(false);
                        }
                        diffuse
                    },
                };
                let dn = h.normal.dot(&r.direction);
                let k = fp::mul_bits(
                    fp::sub_bits(fp::ONE_BITS, fp::mul_bits(dn, dn)),
                    SEVEN_TENTHS_BITS,
                );
                Vec3::scale(fp::sub_bits(fp::ONE_BITS, k), &diffuse).add(&Vec3::scale(k, &c_refl))
            };
            let lightness = fp::neg_bits(light_vector().dot(&h.normal));
            let light_term = Vec3 { x: lightness, y: lightness, z: lightness };
            Outcome { hit: true, color: Some(material.add(&light_term)) }
        },
    }
}

/// Evaluate a whole batch: one outcome per ray, in the order of the rays,
/// each shaded with one reflection bounce.
pub fn evaluate(rays: &Vec<Ray>, scene: &Scene, config: &Config) -> (out: Vec<Outcome>)
    requires
        config.wf(),
    ensures
        out.len() == rays.len(),
        forall|j: int|
            0 <= j < rays.len() ==> out[j] == shade_spec(
                rays[j],
                scene.spheres@,
                config.foreground@,
                config.background,
                1,
            ),
{
    let mut out: Vec<Outcome> = Vec::new();
    let n = rays.len();
    for idx in 0..n
        invariant
            n == rays.len(),
            out.len() == idx,
            config.wf(),
            forall|j: int|
                0 <= j < idx ==> out[j] == shade_spec(
                    rays[j],
                    scene.spheres@,
                    config.foreground@,
                    config.background,
                    1,
                ),
    {
        let o = shade(&rays[idx], scene, config, 1);
        out.push(o);
    }
    out
}

/// A miss is shaded to the background: when no sphere is crossed the
/// outcome reports no hit and exactly the background color.
pub proof fn lemma_miss_outcome(r: Ray, spheres: Seq<Sphere>, fg: Seq<Vec3>, bg: Vec3, bounces: nat)
    requires
        closest_hit_spec(r, spheres) is None,
    ensures
        shade_spec(r, spheres, fg, bg, bounces) == (Outcome { hit: false, color: Some(bg) }),
{
}

/// With no bounce budget there is no reflection term: the color is the
/// gradient material plus the lightness term alone.
pub proof fn lemma_no_bounce_color(r: Ray, spheres: Seq<Sphere>, fg: Seq<Vec3>, bg: Vec3, i: int, h: crate::geom::Hit)
    requires
        closest_hit_spec(r, spheres) == Some((i, h)),
    ensures
        shade_spec(r, spheres, fg, bg, 0) == (Outcome {
            hit: true,
            color: Some(
                {
                    let lightness = fp_neg(dot_spec(light_spec(), h.normal));
                    add_spec(
                        diffuse_spec(fg, i as nat, spheres.len()),
                        Vec3 { x: lightness, y: lightness, z: lightness },
                    )
                },
            ),
        }),
{
}

/// With a single palette entry the gradient degenerates: the material is
/// that entry whatever the sphere index and scene size.
pub proof fn lemma_single_entry_palette(fg: Seq<Vec3>, i: nat, n: nat)
    requires
        fg.len() == 1,
    ensures
        diffuse_spec(fg, i, n) == fg[0],
{
    if n > 1 {
        assert(i * (1 - 1) == 0) by (nonlinear_arith);
    }
}

/// The shader is deterministic: two outcomes of the same inputs are the
/// same outcome, however and whenever they were produced.
pub proof fn lemma_shade_deterministic(
    o1: Outcome,
    o2: Outcome,
    r: Ray,
    spheres: Seq<Sphere>,
    fg: Seq<Vec3>,
    bg: Vec3,
    bounces: nat,
)
    requires
        o1 == shade_spec(r, spheres, fg, bg, bounces),
        o2 == shade_spec(r, spheres, fg, bg, bounces),
    ensures
        o1 == o2,
{
}

/// The evaluator is deterministic: two runs over the same rays, scene and
/// configuration produce the same outcome sequence.
pub proof fn lemma_evaluate_deterministic(
    out1: Seq<Outcome>,
    out2: Seq<Outcome>,
    rays: Seq<Ray>,
    spheres: Seq<Sphere>,
    fg: Seq<Vec3>,
    bg: Vec3,
)
    requires
        out1.len() == rays.len(),
        out2.len() == rays.len(),
        forall|j: int| 0 <= j < rays.len() ==> out1[j] == shade_spec(rays[j], spheres, fg, bg, 1),
        forall|j: int| 0 <= j < rays.len() ==> out2[j] == shade_spec(rays[j], spheres, fg, bg, 1),
    ensures
        out1 =~= out2,
{
}

} // verus!
