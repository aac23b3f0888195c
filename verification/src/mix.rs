//! The mixing steps from which every hash in this crate is assembled.

use vstd::prelude::*;
use crate::words::{
    group_wrapping, lemma_wrap32_add, lemma_wrap64_add, rotate32, rotate64, spec_rotate32,
    spec_rotate64, wrap32, wrap64,
};

verus! {

broadcast use group_wrapping;

/// A prime between 2^63 and 2^64.
pub const K0: u64 = 0xc3a5c85c97cb3127;

/// A prime between 2^63 and 2^64.
pub const K1: u64 = 0xb492b66fbe98f273;

/// A prime between 2^63 and 2^64.
pub const K2: u64 = 0x9ae16a3b2f90404f;

/// First multiplier of the 32-bit mixer.
pub const C1: u32 = 0xcc9e2d51;

/// Second multiplier of the 32-bit mixer.
pub const C2: u32 = 0x1b873593;

/// Two independent 64-bit lanes that are produced together.
pub struct Uint128 {
    pub hi: u64,
    pub lo: u64,
}

/// `v` with its high bits folded into its low bits.
pub open spec fn spec_shift_mix(v: u64) -> u64 {
    v ^ (v >> 47)
}

/// Folds the high bits of `val` into its low bits.
#[inline]
pub fn shift_mix(val: u64) -> (r: u64)
    ensures
        r == spec_shift_mix(val),
{
    val ^ (val >> 47)
}

/// The 32-bit mix of `a` into `h`.
pub open spec fn spec_mur(a: u32, h: u32) -> u32 {
    let a1 = spec_rotate32(wrap32(a * C1), 17);
    let a2 = wrap32(a1 * C2);
    let h1 = spec_rotate32(h ^ a2, 19);
    wrap32(h1 * 5 + 0xe6546b64)
}

/// Mixes `a` into `h`.
#[inline]
pub fn mur(a: u32, h: u32) -> (r: u32)
    ensures
        r == spec_mur(a, h),
{
    let mut a: u32 = a;
    let mut h: u32 = h;
    a = a.wrapping_mul(C1);
    a = rotate32(a, 17);
    a = a.wrapping_mul(C2);
    h = h ^ a;
    h = rotate32(h, 19);
    proof {
        lemma_wrap32_add(h * 5, 0xe6546b64);
    }
    h.wrapping_mul(5).wrapping_add(0xe6546b64)
}

/// The 32-bit fold of `x`: its upper half mixed into its lower half.
pub open spec fn spec_mix_64_to_32(x: u64) -> u32 {
    spec_mur((x / 0x1_0000_0000) as u32, (x % 0x1_0000_0000) as u32)
}

/// Folds a 64-bit value into 32 bits.
#[inline]
pub fn mix_64_to_32(x: u64) -> (r: u32)
    ensures
        r == spec_mix_64_to_32(x),
{
    assert(x >> 32 == x / 0x1_0000_0000) by (bit_vector);
    assert((x << 32) >> 32 == x % 0x1_0000_0000) by (bit_vector);
    mur((x >> 32) as u32, ((x << 32) >> 32) as u32)
}

/// Two 64-bit halves `u` and `v` reduced to one 64-bit value under the
/// multiplier `m`.
pub open spec fn spec_hash_len_16_mul(u: u64, v: u64, m: u64) -> u64 {
    let a = spec_shift_mix(wrap64((u ^ v) * m));
    let b = spec_shift_mix(wrap64((v ^ a) * m));
    wrap64(b * m)
}

/// Reduces the halves `u` and `v` to one value under the multiplier `mul`.
#[inline]
pub fn hash_len_16_mul(u: u64, v: u64, mul: u64) -> (r: u64)
    ensures
        r == spec_hash_len_16_mul(u, v, mul),
{
    let a: u64 = (u ^ v).wrapping_mul(mul);
    let a: u64 = a ^ (a >> 47);
    let b: u64 = (v ^ a).wrapping_mul(mul);
    let b: u64 = b ^ (b >> 47);
    b.wrapping_mul(mul)
}

/// The pair of lanes that four data words `w`, `x`, `y`, `z` and two seed
/// words `a`, `b` mix into. The low lane is the sum of the first seed and all
/// four data words.
pub open spec fn spec_weak_hash_len_32_with_seeds_words(
    w: u64,
    x: u64,
    y: u64,
    z: u64,
    a: u64,
    b: u64,
) -> Uint128 {
    let first = spec_rotate64(wrap64(a + b + w + z), 21);
    let second = spec_rotate64(wrap64(a + w + x + y), 44);
    Uint128 { hi: wrap64(first + second + a + w), lo: wrap64(a + w + x + y + z) }
}

/// Mixes four data words and two seed words into a pair of lanes.
#[inline]
pub fn weak_hash_len_32_with_seeds_words(w: u64, x: u64, y: u64, z: u64, a: u64, b: u64) -> (r:
    Uint128)
    ensures
        r == spec_weak_hash_len_32_with_seeds_words(w, x, y, z, a, b),
{
    let ghost (a0, b0) = (a, b);
    let a: u64 = a.wrapping_add(w);
    let b: u64 = rotate64(b.wrapping_add(a).wrapping_add(z), 21);
    let c: u64 = a;
    let a: u64 = a.wrapping_add(x);
    let a: u64 = a.wrapping_add(y);
    let ghost (first, second) = (b, spec_rotate64(a, 44));
    let b: u64 = b.wrapping_add(rotate64(a, 44));
    proof {
        // first
        lemma_wrap64_add(b0 + c, z as int);
        lemma_wrap64_add(a0 + w, b0 + z);
        // second
        lemma_wrap64_add(a0 + w, x as int);
        lemma_wrap64_add(a0 + w + x, y as int);
        // the lanes
        lemma_wrap64_add(first + second, c as int);
        lemma_wrap64_add(first + second, a0 + w);
        lemma_wrap64_add(a0 + w + x + y, z as int);
    }
    Uint128 { hi: b.wrapping_add(c), lo: a.wrapping_add(z) }
}

} // verus!
