//! A verified IEEE-754 single-precision square root on bit patterns.
//!
//! The outside IEEE-754 implementation the library calls for the rounding
//! arithmetic offers no square root, so the library computes it itself, in
//! integer arithmetic, and the whole computation is verified: `sqrt_bits`
//! provably returns `fp_sqrt(a)`, the encoding of the square root of the
//! value `a` encodes, rounded to nearest.
//!
//! For a positive finite operand `m · 2^(e-150)` (significand `m`, biased
//! exponent `e`) the significand is scaled by an even power of two into
//! `[2^46, 2^48)`, the integer square root of the scaled value is taken —
//! giving exactly the 24 significand bits of the result — and the remainder
//! decides the rounding.  A tie can never occur: the square root of an
//! integer is never exactly halfway between two integers, which shows up
//! below as an even/odd comparison.  Zeros and the infinity return
//! themselves, and NaNs and negative operands return the canonical quiet
//! NaN.

use vstd::arithmetic::power2::{
    lemma2_to64, lemma2_to64_rest, lemma_pow2_adds, lemma_pow2_pos,
    lemma_pow2_strictly_increases, lemma_pow2_unfold, pow2,
};
use vstd::prelude::*;

use crate::fp::{abs_bits, is_nan_bits, sign_bit};

verus! {

/// The number of bits needed to write `m`: zero for zero, otherwise the
/// unique `l` with `2^(l-1) <= m < 2^l`.
pub open spec fn bitlen(m: nat) -> nat
    decreases m,
{
    if m == 0 {
        0
    } else {
        1 + bitlen(m / 2)
    }
}

/// `s` is the integer square root of `n`.
pub open spec fn is_isqrt(n: nat, s: nat) -> bool {
    s * s <= n && n < (s + 1) * (s + 1)
}

/// The integer square root: the largest `s` with `s·s <= n`.
pub closed spec fn isqrt_spec(n: nat) -> nat {
    choose|s: nat| is_isqrt(n, s)
}

/// The square root of the positive finite single-precision value encoded by
/// `x` (sign bit clear), rounded to nearest, as a bit pattern.
pub open spec fn sqrt_pos_spec(x: u32) -> u32 {
    let e = x >> 23u32;
    let frac = x & 0x7fffff;
    let m = if e == 0 {
        frac as nat
    } else {
        (frac + 0x800000) as nat
    };
    let ku = (if e == 0 {
        0u32
    } else {
        (e - 1) as u32
    }) as nat;
    let l = bitlen(m);
    let t0 = (47 - l) as nat;
    let t = if (ku + t0) % 2 == 1 {
        t0
    } else {
        t0 + 1
    };
    let n = m * pow2(t);
    let s = isqrt_spec(n);
    let sr = if n == s * s {
        s
    } else if 4 * n > 4 * (s * s) + 4 * s + 1 {
        s + 1
    } else {
        s
    };
    let sr2 = if sr == 0x1000000 {
        0x800000 as nat
    } else {
        sr
    };
    let er = if sr == 0x1000000 {
        (151 + ku - t) / 2 + 1
    } else {
        (151 + ku - t) / 2
    };
    (er * 0x800000 + (sr2 - 0x800000)) as u32
}

/// The single-precision square root of the value encoded by `a`, rounded to
/// nearest, as a bit pattern.  The two zeros and the positive infinity
/// return themselves; a NaN or a negative operand gives the canonical quiet
/// NaN.
pub open spec fn fp_sqrt(a: u32) -> u32 {
    if is_nan_bits(a) {
        0x7fc00000
    } else if sign_bit(a) && abs_bits(a) != 0 {
        0x7fc00000
    } else if abs_bits(a) == 0 {
        a
    } else if abs_bits(a) == 0x7f800000 {
        a
    } else {
        sqrt_pos_spec(abs_bits(a))
    }
}

/// The integer square root is unique.
proof fn lemma_isqrt_unique(n: nat, s: nat)
    requires
        is_isqrt(n, s),
    ensures
        isqrt_spec(n) == s,
{
    assert(exists|t: nat| is_isqrt(n, t));
    let s2 = choose|t: nat| is_isqrt(n, t);
    assert(is_isqrt(n, s2));
    if s2 < s {
        assert((s2 + 1) * (s2 + 1) <= s * s) by (nonlinear_arith)
            requires
                s2 + 1 <= s,
        ;
    }
    if s < s2 {
        assert((s + 1) * (s + 1) <= s2 * s2) by (nonlinear_arith)
            requires
                s + 1 <= s2,
        ;
    }
}

/// `bitlen` is characterised by its bounds.
proof fn lemma_bitlen_bounds(m: nat)
    requires
        m >= 1,
    ensures
        bitlen(m) >= 1,
        pow2((bitlen(m) - 1) as nat) <= m,
        m < pow2(bitlen(m)),
    decreases m,
{
    lemma2_to64();
    if m == 1 {
        assert(bitlen(1nat) == 1 + bitlen(0nat));
    } else {
        lemma_bitlen_bounds(m / 2);
        let b = bitlen(m / 2);
        lemma_pow2_unfold((b + 1) as nat);
        assert(pow2(b + 1) == 2 * pow2(b));
        if b >= 1 {
            lemma_pow2_unfold(b);
        }
    }
}

/// The integer square root of a value below `2^48`, by binary digits.
fn isqrt48(n: u64) -> (s: u64)
    requires
        n < 0x1000000000000,
    ensures
        is_isqrt(n as nat, s as nat),
        s < 0x1000000,
{
    let mut s: u64 = 0;
    let mut b: u64 = 0x1000000;
    let ghost mut k: nat = 24;
    proof {
        lemma_pow2_adds(24, 24);
        lemma2_to64();
        lemma2_to64_rest();
        assert(pow2(48) == 0x1000000000000);
        assert((n as nat) < (0x1000000 as nat) * (0x1000000 as nat));
    }
    while b > 1
        invariant
            n < 0x1000000000000,
            1 <= b <= 0x1000000,
            b == pow2(k),
            (s as nat) * (s as nat) <= n as nat,
            (n as nat) < ((s + b) as nat) * ((s + b) as nat),
            s + b <= 0x1000000,
        decreases b,
    {
        proof {
            if k == 0 {
                assert(pow2(0) == 1) by {
                    lemma2_to64();
                }
            }
            lemma_pow2_unfold(k);
            k = (k - 1) as nat;
        }
        let half = b / 2;
        let cand = s + half;
        assert(cand * cand <= 0x1000000000000) by (nonlinear_arith)
            requires
                cand <= 0x1000000u64,
        ;
        if cand * cand <= n {
            s = cand;
        }
        b = half;
    }
    s
}

/// The square root of the positive finite single-precision value encoded by
/// `x` (sign bit clear), rounded to nearest.
fn sqrt_pos_bits(x: u32) -> (r: u32)
    requires
        0 < x < 0x7f800000,
    ensures
        r == sqrt_pos_spec(x),
{
    let e: u32 = x >> 23;
    let frac: u32 = x & 0x7fffff;
    proof {
        assert(e == 0 ==> frac == x && x < 0x800000) by (bit_vector)
            requires
                e == x >> 23u32 && frac == x & 0x7fffff && 0 < x < 0x7f800000u32,
        ;
        assert(frac <= 0x7fffff && e <= 254) by (bit_vector)
            requires
                e == x >> 23u32 && frac == x & 0x7fffff && 0 < x < 0x7f800000u32,
        ;
    }
    let m: u64 = if e == 0 {
        frac as u64
    } else {
        (frac + 0x800000) as u64
    };
    let ku: u32 = if e == 0 {
        0
    } else {
        e - 1
    };

    // The number of bits of the significand.
    let mut l: u32 = 0;
    let mut p: u64 = 1;
    proof {
        lemma2_to64();
    }
    while p <= m
        invariant
            1 <= m < 0x1000000,
            p == pow2(l as nat),
            l <= 24,
            l >= 1 ==> pow2((l - 1) as nat) <= m,
        decreases (2 * m) - p,
    {
        proof {
            lemma2_to64();
            if l as nat + 1 <= 24 {
            } else {
                lemma_pow2_strictly_increases(24, l as nat);
            }
            lemma_pow2_adds(l as nat, 1);
            lemma2_to64();
        }
        l = l + 1;
        p = p * 2;
    }
    proof {
        // l is exactly bitlen(m).
        lemma_bitlen_bounds(m as nat);
        if l == 0 {
            assert(pow2(0) == 1) by {
                lemma2_to64();
            }
        }
        let bl = bitlen(m as nat);
        if l < bl {
            lemma_pow2_strictly_increases(l as nat, (bl - 1) as nat);
            if l as nat == (bl - 1) as nat {
            }
        }
        if bl < l {
            lemma_pow2_strictly_increases(bl as nat, (l - 1) as nat);
            if bl as nat == (l - 1) as nat {
            }
        }
        assert(l as nat == bl);
    }

    let t0: u32 = 47 - l;
    let t: u32 = if (ku + t0) % 2 == 1 {
        t0
    } else {
        t0 + 1
    };
    proof {
        // The scaled significand stays below 2^48.
        lemma_pow2_adds(l as nat, (48 - l) as nat);
        if (t as nat) < (48 - l) as nat {
            lemma_pow2_strictly_increases(t as nat, (48 - l) as nat);
        }
        lemma_pow2_pos(t as nat);
        lemma_pow2_pos(l as nat);
        assert((m as nat) * pow2(t as nat) < pow2(48)) by (nonlinear_arith)
            requires
                (m as nat) < pow2(l as nat),
                pow2(t as nat) <= pow2((48 - l) as nat),
                pow2(l as nat) * pow2((48 - l) as nat) == pow2(48),
                pow2(t as nat) > 0,
                pow2(l as nat) > 0,
        {
        }
        lemma2_to64();
        lemma2_to64_rest();
    }

    // Scale by 2^t.
    let mut n: u64 = m;
    let mut i: u32 = 0;
    while i < t
        invariant
            n == (m as nat) * pow2(i as nat),
            i <= t <= 47,
            (m as nat) * pow2(t as nat) < pow2(48),
            pow2(48) == 0x1000000000000,
            1 <= m < 0x1000000,
        decreases t - i,
    {
        proof {
            lemma_pow2_adds(i as nat, 1);
            lemma2_to64();
            if (i + 1) as nat <= t as nat {
                if ((i + 1) as nat) < t as nat {
                    lemma_pow2_strictly_increases((i + 1) as nat, t as nat);
                }
            }
            assert((m as nat) * pow2((i + 1) as nat) <= (m as nat) * pow2(t as nat))
                by (nonlinear_arith)
                requires
                    pow2((i + 1) as nat) <= pow2(t as nat),
                    m >= 1,
            {
            }
            assert((m as nat) * pow2((i + 1) as nat) == ((m as nat) * pow2(i as nat)) * 2)
                by (nonlinear_arith)
                requires
                    pow2((i + 1) as nat) == pow2(i as nat) * 2,
            {
            }
        }
        n = n * 2;
        i = i + 1;
    }

    let s: u64 = isqrt48(n);
    proof {
        lemma_isqrt_unique(n as nat, s as nat);
    }

    let exact: bool = s * s == n;
    proof {
        assert(4 * (n as nat) < 0x4000000000000);
        assert(s * s < 0x1000000000000) by (nonlinear_arith)
            requires
                s < 0x1000000u64,
        ;
    }
    let sr: u64 = if exact {
        s
    } else if 4 * n > 4 * (s * s) + 4 * s + 1 {
        s + 1
    } else {
        s
    };
    proof {
        // The result significand has 24 or 25 bits.
        if s < 0x800000 {
            assert((s + 1) * (s + 1) <= (0x800000 as nat) * (0x800000 as nat))
                by (nonlinear_arith)
                requires
                    s + 1 <= 0x800000u64,
            ;
            assert(pow2(23) * pow2(23) == pow2(46)) by {
                lemma_pow2_adds(23, 23);
            }
            lemma2_to64();
            lemma2_to64_rest();
            // n >= 2^46 contradicts n < (s+1)^2 <= 2^46.
            if l >= 1 {
                lemma_pow2_adds((l - 1) as nat, (47 - l) as nat);
                if ((47 - l) as nat) < t as nat {
                    lemma_pow2_strictly_increases((47 - l) as nat, t as nat);
                }
                assert((m as nat) * pow2(t as nat) >= pow2((l - 1) as nat) * pow2(
                    (47 - l) as nat,
                )) by (nonlinear_arith)
                    requires
                        (m as nat) >= pow2((l - 1) as nat),
                        pow2(t as nat) >= pow2((47 - l) as nat),
                        pow2((l - 1) as nat) > 0,
                        pow2((47 - l) as nat) > 0,
                {
                }
            }
        }
        assert(s >= 0x800000);
    }

    let sr2: u64 = if sr == 0x1000000 {
        0x800000
    } else {
        sr
    };
    let er: u32 = if sr == 0x1000000 {
        (151 + ku - t) / 2 + 1
    } else {
        (151 + ku - t) / 2
    };
    er * 0x800000 + (sr2 as u32 - 0x800000)
}

/// The single-precision square root of the value encoded by `a`, rounded to
/// nearest.  Zeros and the positive infinity return themselves; a NaN or a
/// negative operand gives the canonical quiet NaN.
pub fn sqrt_bits(a: u32) -> (r: u32)
    ensures
        r == fp_sqrt(a),
{
    let na = a & 0x7fffffff;
    if na > 0x7f800000 {
        return 0x7fc00000;
    }
    if (a & 0x80000000 != 0) && na != 0 {
        return 0x7fc00000;
    }
    if na == 0 {
        return a;
    }
    if na == 0x7f800000 {
        return a;
    }
    proof {
        assert(a == na) by (bit_vector)
            requires
                na == a & 0x7fffffffu32 && a & 0x80000000u32 == 0,
        ;
    }
    sqrt_pos_bits(na)
}

} // verus!
