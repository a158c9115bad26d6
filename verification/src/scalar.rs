//! IEEE-754 binary32 bit patterns for small non-negative integers, and
//! integer clamping.
//!
//! Window sizes and cursor coordinates are whole pixel counts, far below
//! 2^24, so each converts to a binary32 value exactly; the encoding is pure
//! integer arithmetic on the bit pattern.

use vstd::prelude::*;
use vstd::arithmetic::power2::{pow2, lemma_pow2_unfold, lemma_pow2_adds, lemma_pow2_pos,
    lemma2_to64};
use vstd::arithmetic::div_mod::{lemma_div_is_ordered, lemma_div_multiples_vanish,
    lemma_multiply_divide_lt};
use vstd::arithmetic::mul::{lemma_mul_inequality, lemma_mul_strict_inequality,
    lemma_mul_is_associative};

verus! {

/// Largest exponent-plus-one for which whole numbers are exact in binary32:
/// every integer below 2^24 has an exact single-precision representation.
pub const EXACT_LIMIT: u32 = 16777216;

/// Position of the binary point: a binary32 mantissa has 23 fraction bits.
pub const MANTISSA_ONE: u32 = 8388608;

/// Floor of the base-two logarithm of `v` (0 for `v == 0`).
pub open spec fn floor_log2(v: nat) -> nat
    decreases v,
{
    if v <= 1 {
        0
    } else {
        1 + floor_log2((v / 2) as nat)
    }
}

/// Bit pattern of the IEEE-754 binary32 value equal to `v`, for `v < 2^24`:
/// zero encodes as the all-zero word; otherwise, with `k = floor_log2(v)`,
/// the biased exponent `k + 127` sits above 23 mantissa bits holding
/// `v * 2^(23 - k)` with its leading bit dropped, which folds to the closed
/// form below.
pub open spec fn single_bits_of(v: nat) -> nat
    recommends
        v < pow2(24),
{
    if v == 0 {
        0
    } else {
        let k = floor_log2(v);
        (k + 126) * pow2(23) + v * pow2((23 - k) as nat)
    }
}

/// `v` clamped into `[lo, hi]`.
pub open spec fn spec_clamp(v: int, lo: int, hi: int) -> int
    recommends
        lo <= hi,
{
    if v < lo {
        lo
    } else if v > hi {
        hi
    } else {
        v
    }
}

/// `floor_log2` is characterized by the enclosing powers of two.
proof fn lemma_floor_log2_eq(v: nat, k: nat)
    requires
        pow2(k) <= v < pow2(k + 1),
    ensures
        floor_log2(v) == k,
    decreases k,
{
    lemma2_to64();
    if k == 0 {
        assert(1 <= v < 2);
    } else {
        lemma_pow2_unfold(k + 1);
        lemma_pow2_unfold(k);
        lemma_pow2_pos((k - 1) as nat);
        // pow2(k - 1) <= v / 2 < pow2(k)
        lemma_div_is_ordered(pow2(k) as int, v as int, 2);
        lemma_div_multiples_vanish(pow2((k - 1) as nat) as int, 2);
        assert(v / 2 >= pow2((k - 1) as nat));
        lemma_multiply_divide_lt(v as int, 2, pow2(k) as int);
        assert(v / 2 < pow2(k));
        lemma_floor_log2_eq((v / 2) as nat, (k - 1) as nat);
        assert(v >= 2);
    }
}

/// Exact binary32 bit pattern of a small whole number.
pub fn single_bits_of_u32(v: u32) -> (r: u32)
    requires
        v < EXACT_LIMIT,
    ensures
        r as nat == single_bits_of(v as nat),
{
    proof {
        lemma2_to64();
    }
    if v == 0 {
        return 0;
    }
    let mut k: u32 = 0;
    let mut p: u32 = 1;
    while 2 * p <= v
        invariant
            1 <= v < EXACT_LIMIT,
            p as nat == pow2(k as nat),
            1 <= p <= v,
            k <= 23,
        decreases v - p,
    {
        proof {
            lemma_pow2_unfold(k as nat + 1);
            if k == 23 {
                // then 2 * p == 2^24 > v, contradicting the loop guard
                lemma2_to64();
            }
        }
        p = 2 * p;
        k = k + 1;
    }
    proof {
        lemma_pow2_unfold(k as nat + 1);
        lemma_floor_log2_eq(v as nat, k as nat);
    }
    // q == 2^(23 - k), the scale that lifts v to 23 fraction bits
    let q: u32 = MANTISSA_ONE / p;
    proof {
        lemma2_to64();
        lemma_pow2_adds(k as nat, (23 - k) as nat);
        assert(MANTISSA_ONE as int == (p as int) * (pow2((23 - k) as nat) as int));
        lemma_div_multiples_vanish(pow2((23 - k) as nat) as int, p as int);
        assert(q as nat == pow2((23 - k) as nat));
        lemma_pow2_pos((23 - k) as nat);
        // v * q < (2 * p) * q == 2 * (p * q) == 2^24
        lemma_mul_strict_inequality(v as int, 2 * (p as int), q as int);
        lemma_mul_is_associative(2, p as int, q as int);
        assert(p as int * q as int == pow2(23) as int);
        assert((v as int * q as int) < (pow2(24) as int));
        // the exponent word stays far below the u32 range
        lemma_mul_inequality(k as int + 126, 149, MANTISSA_ONE as int);
    }
    (k + 126) * MANTISSA_ONE + v * q
}

/// `v` clamped into `[lo, hi]`.
pub fn clamp_i64(v: i64, lo: i64, hi: i64) -> (r: i64)
    requires
        lo <= hi,
    ensures
        r == spec_clamp(v as int, lo as int, hi as int),
        lo <= r <= hi,
{
    if v < lo {
        lo
    } else if v > hi {
        hi
    } else {
        v
    }
}

} // verus!
