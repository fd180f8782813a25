//! Three-component vectors of IEEE-754 single-precision scalars.
//!
//! Components are carried as bit patterns (see the `fp` module).  Every
//! operation states exactly which composition of rounded scalar operations
//! its result is.

use vstd::prelude::*;

use crate::fp;
use crate::fp::{fp_add, fp_div, fp_mul, fp_sub};

verus! {

/// A vector of three single-precision components, each held as its bit
/// pattern.  Two vectors are equal exactly when their component bit patterns
/// are equal.
#[derive(PartialEq, Eq, Structural, Clone, Copy, Debug)]
pub struct Vec3 {
    pub x: u32,
    pub y: u32,
    pub z: u32,
}

/// Componentwise rounded sum.
pub open spec fn add_spec(a: Vec3, b: Vec3) -> Vec3 {
    Vec3 { x: fp_add(a.x, b.x), y: fp_add(a.y, b.y), z: fp_add(a.z, b.z) }
}

/// Componentwise rounded difference.
pub open spec fn sub_spec(a: Vec3, b: Vec3) -> Vec3 {
    Vec3 { x: fp_sub(a.x, b.x), y: fp_sub(a.y, b.y), z: fp_sub(a.z, b.z) }
}

/// Componentwise rounded product with the scalar `k`.
pub open spec fn scale_spec(k: u32, v: Vec3) -> Vec3 {
    Vec3 { x: fp_mul(k, v.x), y: fp_mul(k, v.y), z: fp_mul(k, v.z) }
}

/// Componentwise rounded quotient by the scalar `k`.
pub open spec fn div_spec(v: Vec3, k: u32) -> Vec3 {
    Vec3 { x: fp_div(v.x, k), y: fp_div(v.y, k), z: fp_div(v.z, k) }
}

/// The rounded dot product, summed left to right:
/// `(ax·bx + ay·by) + az·bz`.
pub open spec fn dot_spec(a: Vec3, b: Vec3) -> u32 {
    fp_add(fp_add(fp_mul(a.x, b.x), fp_mul(a.y, b.y)), fp_mul(a.z, b.z))
}

/// The rounded length: the square root of the dot product of `v` with
/// itself.
pub open spec fn length_spec(v: Vec3) -> u32 {
    crate::sqrt::fp_sqrt(dot_spec(v, v))
}

/// The mirror reflection `d - (2·dot(d, n))·n` of `d` about the unit normal
/// `n`, composed of rounded operations.
pub open spec fn reflect_spec(d: Vec3, n: Vec3) -> Vec3 {
    sub_spec(d, scale_spec(fp_mul(fp::TWO_BITS, dot_spec(d, n)), n))
}

impl Vec3 {
    /// Construct a vector from three component bit patterns.
    pub fn new(x: u32, y: u32, z: u32) -> (r: Vec3)
        ensures
            r == (Vec3 { x, y, z }),
    {
        Vec3 { x, y, z }
    }

    /// Componentwise sum.
    pub fn add(&self, rhs: &Vec3) -> (r: Vec3)
        ensures
            r == add_spec(*self, *rhs),
    {
        Vec3 {
            x: fp::add_bits(self.x, rhs.x),
            y: fp::add_bits(self.y, rhs.y),
            z: fp::add_bits(self.z, rhs.z),
        }
    }

    /// Componentwise difference.
    pub fn sub(&self, rhs: &Vec3) -> (r: Vec3)
        ensures
            r == sub_spec(*self, *rhs),
    {
        Vec3 {
            x: fp::sub_bits(self.x, rhs.x),
            y: fp::sub_bits(self.y, rhs.y),
            z: fp::sub_bits(self.z, rhs.z),
        }
    }

    /// Componentwise product with the scalar `k`.
    pub fn scale(k: u32, v: &Vec3) -> (r: Vec3)
        ensures
            r == scale_spec(k, *v),
    {
        Vec3 {
            x: fp::mul_bits(k, v.x),
            y: fp::mul_bits(k, v.y),
            z: fp::mul_bits(k, v.z),
        }
    }

    /// Componentwise quotient by the scalar `k`.
    pub fn div(&self, k: u32) -> (r: Vec3)
        ensures
            r == div_spec(*self, k),
    {
        Vec3 {
            x: fp::div_bits(self.x, k),
            y: fp::div_bits(self.y, k),
            z: fp::div_bits(self.z, k),
        }
    }

    /// The dot product of two vectors, an indication of how aligned they
    /// are: positive when they point in similar directions, zero when they
    /// are perpendicular.
    pub fn dot(&self, rhs: &Vec3) -> (r: u32)
        ensures
            r == dot_spec(*self, *rhs),
    {
        fp::add_bits(
            fp::add_bits(fp::mul_bits(self.x, rhs.x), fp::mul_bits(self.y, rhs.y)),
            fp::mul_bits(self.z, rhs.z),
        )
    }

    /// The length of the vector, by Pythagoras.
    pub fn length(&self) -> (r: u32)
        ensures
            r == length_spec(*self),
    {
        let sum_of_squares = self.dot(self);
        crate::sqrt::sqrt_bits(sum_of_squares)
    }

    /// The mirror reflection of the direction `self` about the unit normal
    /// `n`.
    pub fn reflect(&self, n: &Vec3) -> (r: Vec3)
        ensures
            r == reflect_spec(*self, *n),
    {
        let twice_dot = fp::mul_bits(fp::TWO_BITS, self.dot(n));
        self.sub(&Vec3::scale(twice_dot, n))
    }
}

/// How a textual vector fails to parse: the text does not split into three
/// comma-separated parts, or a part is not a numeral.
#[derive(PartialEq, Eq, Structural, Clone, Copy, Debug)]
pub enum ParseVecError {
    WrongNumberOfComponents,
    InvalidComponent,
}

/// The index of the first comma at or after `from`, or the length when
/// there is none.
pub open spec fn find_comma(s: Seq<char>, from: int) -> int
    decreases s.len() - from,
{
    if from < 0 || from >= s.len() {
        s.len() as int
    } else if s[from] == ',' {
        from
    } else {
        find_comma(s, from + 1)
    }
}

/// What parsing the text `x,y,z` yields: the three components between the
/// commas, each read as a single-precision numeral; or
/// `WrongNumberOfComponents` when the commas do not cut the text into
/// exactly three parts, or `InvalidComponent` when they do but some part is
/// not a numeral.
pub open spec fn parse_vec3_spec(s: Seq<char>) -> Result<Vec3, ParseVecError> {
    let n = s.len() as int;
    let i = find_comma(s, 0);
    let j = find_comma(s, i + 1);
    let k = find_comma(s, j + 1);
    if !(i < n && j < n && k == n) {
        Err(ParseVecError::WrongNumberOfComponents)
    } else {
        let p0 = crate::fp::fp_of_chars(s.subrange(0, i));
        let p1 = crate::fp::fp_of_chars(s.subrange(i + 1, j));
        let p2 = crate::fp::fp_of_chars(s.subrange(j + 1, n));
        if p0 is Some && p1 is Some && p2 is Some {
            Ok(Vec3 { x: p0->0, y: p1->0, z: p2->0 })
        } else {
            Err(ParseVecError::InvalidComponent)
        }
    }
}

/// The characters of `s`, as a vector.
fn collect_chars(s: &str) -> (cs: Vec<char>)
    ensures
        cs@ == s@,
{
    broadcast use vstd::string::axiom_spec_iter;

    let mut cs: Vec<char> = Vec::new();
    for c in it: s.chars()
        invariant
            cs@ =~= it.seq().take(it.index() as int),
    {
        cs.push(c);
    }
    proof {
        assert(cs@ =~= s@);
    }
    cs
}

/// The index of the first comma at or after `from`, or the length.
fn scan_comma(cs: &Vec<char>, from: usize) -> (r: usize)
    requires
        from <= cs.len(),
    ensures
        r == find_comma(cs@, from as int),
        from <= r <= cs.len(),
{
    let mut idx = from;
    while idx < cs.len()
        invariant
            from <= idx <= cs.len(),
            find_comma(cs@, from as int) == find_comma(cs@, idx as int),
        decreases cs.len() - idx,
    {
        if cs[idx] == ',' {
            return idx;
        }
        idx = idx + 1;
    }
    idx
}

/// The characters of `cs` from `a` (inclusive) to `b` (exclusive).
fn copy_range(cs: &Vec<char>, a: usize, b: usize) -> (r: Vec<char>)
    requires
        a <= b <= cs.len(),
    ensures
        r@ == cs@.subrange(a as int, b as int),
{
    let mut r: Vec<char> = Vec::new();
    let mut idx = a;
    while idx < b
        invariant
            a <= idx <= b <= cs.len(),
            r@ =~= cs@.subrange(a as int, idx as int),
        decreases b - idx,
    {
        r.push(cs[idx]);
        proof {
            assert(cs@.subrange(a as int, idx + 1) =~= cs@.subrange(a as int, idx as int).push(
                cs@[idx as int],
            ));
        }
        idx = idx + 1;
    }
    r
}

/// Parse the textual form `x,y,z`: exactly three comma-separated
/// single-precision numerals.
pub fn parse_vec3(s: &str) -> (r: Result<Vec3, ParseVecError>)
    ensures
        r == parse_vec3_spec(s@),
{
    let cs = collect_chars(s);
    let n = cs.len();
    let i = scan_comma(&cs, 0);
    if i == n {
        return Err(ParseVecError::WrongNumberOfComponents);
    }
    let j = scan_comma(&cs, i + 1);
    if j == n {
        return Err(ParseVecError::WrongNumberOfComponents);
    }
    let k = scan_comma(&cs, j + 1);
    if k < n {
        return Err(ParseVecError::WrongNumberOfComponents);
    }
    let p0 = copy_range(&cs, 0, i);
    let p1 = copy_range(&cs, i + 1, j);
    let p2 = copy_range(&cs, j + 1, n);
    let x = fp::parse_component(p0.as_slice());
    let y = fp::parse_component(p1.as_slice());
    let z = fp::parse_component(p2.as_slice());
    match (x, y, z) {
        (Some(x), Some(y), Some(z)) => Ok(Vec3 { x, y, z }),
        _ => Err(ParseVecError::InvalidComponent),
    }
}

impl core::str::FromStr for Vec3 {
    type Err = ParseVecError;

    /// Parse the textual form `x,y,z`.
    fn from_str(s: &str) -> Result<Self, Self::Err> {
        parse_vec3(s)
    }
}

} // verus!
