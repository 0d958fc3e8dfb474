//! Integer arithmetic the mipmap policy rests on: floor of the base-2
//! logarithm, the power-of-two test, and the size of a mip level obtained by
//! repeated halving.

use vstd::prelude::*;
use vstd::arithmetic::power2::{
    pow2, is_pow2, lemma_pow2_pos, lemma_pow2_adds, lemma_pow2_strictly_increases, lemma2_to64,
};
use vstd::arithmetic::div_mod::{lemma_div_denominator, lemma_div_is_ordered_by_denominator};

verus! {

/// floor(log2(n)) for n >= 1; 0 when n <= 1.
pub open spec fn floor_log2(n: nat) -> nat
    decreases n,
{
    if n <= 1 {
        0
    } else {
        1 + floor_log2(n / 2)
    }
}

/// `floor_log2` is the exponent of the largest power of two not above `n`.
pub proof fn lemma_floor_log2_bounds(n: nat)
    requires
        n >= 1,
    ensures
        pow2(floor_log2(n)) <= n < pow2(floor_log2(n) + 1),
    decreases n,
{
    if n <= 1 {
        lemma2_to64();
    } else {
        lemma_floor_log2_bounds(n / 2);
        let l = floor_log2(n / 2);
        lemma_pow2_adds(l, 1);
        lemma_pow2_adds(l + 1, 1);
        lemma2_to64();
        assert(pow2(l + 1) == pow2(l) * 2);
        assert(pow2(l + 2) == pow2(l + 1) * 2);
        assert(n >= 2 * (n / 2));
        assert(n <= 2 * (n / 2) + 1);
    }
}

/// For a value that fits in 32 bits the floor logarithm is at most 31.
pub proof fn lemma_floor_log2_u32(n: u32)
    requires
        n >= 1,
    ensures
        floor_log2(n as nat) <= 31,
{
    lemma_floor_log2_bounds(n as nat);
    if floor_log2(n as nat) > 31 {
        if floor_log2(n as nat) > 32 {
            lemma_pow2_strictly_increases(32, floor_log2(n as nat));
        }
        lemma2_to64();
        assert(false);
    }
}

/// Computes floor(log2(n)) by repeated halving.
pub fn u32_floor_log2(n: u32) -> (r: u32)
    requires
        n >= 1,
    ensures
        r as nat == floor_log2(n as nat),
{
    proof {
        lemma_floor_log2_u32(n);
    }
    let mut v: u32 = n;
    let mut k: u32 = 0;
    while v > 1
        invariant
            1 <= v <= n,
            floor_log2(n as nat) == k + floor_log2(v as nat),
            floor_log2(n as nat) <= 31,
        decreases v,
    {
        v = v / 2;
        k = k + 1;
    }
    k
}

/// Decides whether `n` is an exact power of two (0 is not).
pub fn u32_is_power_of_two(n: u32) -> (r: bool)
    ensures
        r == is_pow2(n as int),
{
    if n == 0 {
        proof {
            reveal(is_pow2);
        }
        return false;
    }
    let mut v: u32 = n;
    while v % 2 == 0
        invariant
            1 <= v <= n,
            is_pow2(n as int) == is_pow2(v as int),
        decreases v,
    {
        proof {
            reveal(is_pow2);
        }
        v = v / 2;
    }
    proof {
        reveal(is_pow2);
    }
    v == 1
}

/// A power of two is at least 1.
pub proof fn lemma_pow2_value_pos(n: u32)
    requires
        is_pow2(n as int),
    ensures
        n >= 1,
{
    reveal(is_pow2);
}

/// Width or height of the k-th derived mip level below a base dimension `d`:
/// `d` halved `k` times, clamped below at 1.
pub open spec fn mip_dim(d: u32, k: nat) -> nat {
    let q = (d as nat) / pow2(k);
    if q < 1 {
        1
    } else {
        q
    }
}

/// The base level itself is level 0 of its own chain.
pub proof fn lemma_mip_dim_zero(d: u32)
    requires
        d >= 1,
    ensures
        mip_dim(d, 0) == d,
{
    lemma2_to64();
}

/// Halving once more: each subsequent level is max(1, previous / 2).
pub proof fn lemma_mip_dim_step(d: u32, k: nat)
    ensures
        mip_dim(d, k + 1) == (if mip_dim(d, k) / 2 < 1 {
            1nat
        } else {
            mip_dim(d, k) / 2
        }),
{
    lemma_pow2_pos(k);
    lemma_pow2_adds(k, 1);
    lemma2_to64();
    lemma_div_denominator(d as int, pow2(k) as int, 2);
    assert(pow2(k + 1) == pow2(k) * 2);
    assert((d as nat) / pow2(k) / 2 == (d as nat) / pow2(k + 1));
}

/// A derived dimension never exceeds the base dimension.
pub proof fn lemma_mip_dim_le(d: u32, k: nat)
    requires
        d >= 1,
    ensures
        1 <= mip_dim(d, k) <= d,
{
    lemma_pow2_pos(k);
    lemma2_to64();
    lemma_div_is_ordered_by_denominator(d as int, 1, pow2(k) as int);
}

/// Once a dimension has shrunk to 1 it stays at 1 for all deeper levels.
pub proof fn lemma_mip_dim_stays_one(d: u32, k1: nat, k2: nat)
    requires
        mip_dim(d, k1) == 1,
        k1 <= k2,
    ensures
        mip_dim(d, k2) == 1,
    decreases k2 - k1,
{
    if k1 < k2 {
        lemma_mip_dim_step(d, k1);
        lemma_mip_dim_stays_one(d, k1 + 1, k2);
    }
}

} // verus!
