//! Closed-form hashes of short inputs, one per band of lengths.

use vstd::prelude::*;
use crate::mix::{hash_len_16_mul, shift_mix, spec_hash_len_16_mul, spec_shift_mix, K0, K1, K2};
use crate::words::{
    fetch32, fetch64, group_wrapping, lemma_wrap64_add, lemma_wrap64_fits, lemma_wrap64_mul,
    rotate64, spec_fetch32, spec_fetch64, spec_rotate64, wrap64,
};

verus! {

broadcast use group_wrapping;

/// The multiplier for an input of `n` bytes: `K2` plus twice the length,
/// reduced modulo 2^64.
pub open spec fn spec_length_multiplier(n: nat) -> u64 {
    wrap64(K2 + 2 * n)
}

/// For every length below 2^61 the multiplier is `K2 + 2 * n` itself: nothing
/// is lost to the reduction.
pub proof fn lemma_length_multiplier_exact(n: nat)
    requires
        n < 0x2000_0000_0000_0000,
    ensures
        spec_length_multiplier(n) == K2 + 2 * n,
{
    lemma_wrap64_fits(K2 + 2 * n);
}

/// The pair of halves that the words `a`, `b`, `c`, `d` and the key `k` are
/// crossed into before they are reduced to one value.
pub open spec fn spec_cross(a: u64, b: u64, c: u64, d: u64, k: u64) -> (u64, u64) {
    (
        wrap64(spec_rotate64(wrap64(a + b), 43) + spec_rotate64(c, 30) + d),
        wrap64(a + spec_rotate64(wrap64(b + k), 18) + c),
    )
}

/// The hash of an input of at most 16 bytes.
///
/// Eight bytes and more are read as two words, the first and the last eight
/// bytes; four to seven bytes as two half words, the first and the last four
/// bytes; one to three bytes by the first, the middle and the last byte. The
/// empty input hashes to `K2`.
pub open spec fn spec_hash_len_0_to_16(s: Seq<u8>) -> u64 {
    let n = s.len();
    let m = spec_length_multiplier(n);
    if n >= 8 {
        let a = wrap64(spec_fetch64(s, 0) + K2);
        let b = spec_fetch64(s, n - 8);
        let c = wrap64(spec_rotate64(b, 37) * m + a);
        let d = wrap64((spec_rotate64(a, 25) + b) * m);
        spec_hash_len_16_mul(c, d, m)
    } else if n >= 4 {
        spec_hash_len_16_mul((n + 8 * spec_fetch32(s, 0)) as u64, spec_fetch32(s, n - 4), m)
    } else if n > 0 {
        let y = s[0] + 0x100 * s[n as int / 2];
        let z = n + 4 * s[n - 1];
        wrap64(spec_shift_mix(wrap64(y * K2) ^ wrap64(z * K0)) * K2)
    } else {
        K2
    }
}

/// Hashes an input of at most 16 bytes.
#[inline]
pub fn hash_len_0_to_16(s: &[u8]) -> (r: u64)
    ensures
        r == spec_hash_len_0_to_16(s@),
{
    let slen: u64 = s.len() as u64;

    if slen >= 8 {
        let mul: u64 = K2.wrapping_add(slen.wrapping_mul(2));
        let a: u64 = fetch64(s, 0).wrapping_add(K2);
        let b: u64 = fetch64(s, (slen - 8) as usize);
        let c: u64 = rotate64(b, 37).wrapping_mul(mul).wrapping_add(a);
        let d: u64 = (rotate64(a, 25).wrapping_add(b)).wrapping_mul(mul);
        proof {
            lemma_wrap64_add(slen * 2, K2 as int);
            lemma_wrap64_add(spec_rotate64(b, 37) * mul, a as int);
            lemma_wrap64_mul(spec_rotate64(a, 25) + b, mul as int);
        }
        return hash_len_16_mul(c, d, mul);
    }
    if slen >= 4 {
        let mul: u64 = K2.wrapping_add(slen.wrapping_mul(2));
        let a: u64 = fetch32(s, 0);
        assert(a << 3 == 8 * a) by (bit_vector)
            requires
                a < 0x1_0000_0000,
        ;
        return hash_len_16_mul(slen.wrapping_add(a << 3), fetch32(s, (slen - 4) as usize), mul);
    }
    if slen > 0 {
        assert(slen >> 1 == slen / 2) by (bit_vector);
        let a: u8 = s[0];
        let b: u8 = s[(slen >> 1) as usize];
        let c: u8 = s[(slen - 1) as usize];
        assert((b as u32) << 8 == 0x100 * b) by (bit_vector);
        assert((c as u32) << 2 == 4 * c) by (bit_vector);
        let y: u32 = (a as u32).wrapping_add((b as u32) << 8);
        let z: u32 = (slen as u32).wrapping_add((c as u32) << 2);
        return shift_mix((y as u64).wrapping_mul(K2) ^ (z as u64).wrapping_mul(K0)).wrapping_mul(
            K2,
        );
    }
    K2
}

/// The hash of an input of 17 to 32 bytes, from its first and last sixteen
/// bytes.
pub open spec fn spec_hash_len_17_to_32(s: Seq<u8>) -> u64 {
    let n = s.len();
    let m = spec_length_multiplier(n);
    let a = wrap64(spec_fetch64(s, 0) * K1);
    let b = spec_fetch64(s, 8);
    let c = wrap64(spec_fetch64(s, n - 8) * m);
    let d = wrap64(spec_fetch64(s, n - 16) * K2);
    let (u, v) = spec_cross(a, b, c, d, K2);
    spec_hash_len_16_mul(u, v, m)
}

/// Hashes an input of 17 to 32 bytes. Sixteen bytes are enough to read from.
#[inline]
pub fn hash_len_17_to_32(s: &[u8]) -> (r: u64)
    requires
        s@.len() >= 16,
    ensures
        r == spec_hash_len_17_to_32(s@),
{
    let slen: usize = s.len();
    let mul: u64 = K2.wrapping_add((slen as u64).wrapping_mul(2));
    let a: u64 = fetch64(s, 0).wrapping_mul(K1);
    let b: u64 = fetch64(s, 8);
    let c: u64 = fetch64(s, slen - 8).wrapping_mul(mul);
    let d: u64 = fetch64(s, slen - 16).wrapping_mul(K2);
    proof {
        lemma_wrap64_add(slen * 2, K2 as int);
        lemma_cross_stepwise(a, b, c, d, K2);
    }
    hash_len_16_mul(
        rotate64(a.wrapping_add(b), 43).wrapping_add(rotate64(c, 30)).wrapping_add(d),
        a.wrapping_add(rotate64(b.wrapping_add(K2), 18)).wrapping_add(c),
        mul,
    )
}

/// The hash of an input of 33 to 64 bytes, from its first and last 32 bytes.
pub open spec fn spec_hash_len_33_to_64(s: Seq<u8>) -> u64 {
    let n = s.len();
    let m = spec_length_multiplier(n);
    let a = wrap64(spec_fetch64(s, 0) * K2);
    let b = spec_fetch64(s, 8);
    let c = wrap64(spec_fetch64(s, n - 8) * m);
    let d = wrap64(spec_fetch64(s, n - 16) * K2);
    let (y, t) = spec_cross(a, b, c, d, K2);
    let z = spec_hash_len_16_mul(y, t, m);
    let e = wrap64(spec_fetch64(s, 16) * m);
    let f = spec_fetch64(s, 24);
    let g = wrap64((y + spec_fetch64(s, n - 32)) * m);
    let h = wrap64((z + spec_fetch64(s, n - 24)) * m);
    let (u, v) = spec_cross(e, f, g, h, a);
    spec_hash_len_16_mul(u, v, m)
}

/// Hashes an input of 33 to 64 bytes. Thirty-two bytes are enough to read
/// from.
#[inline]
pub fn hash_len_33_to_64(s: &[u8]) -> (r: u64)
    requires
        s@.len() >= 32,
    ensures
        r == spec_hash_len_33_to_64(s@),
{
    let slen: usize = s.len();
    let mul: u64 = K2.wrapping_add((slen as u64).wrapping_mul(2));
    let a: u64 = fetch64(s, 0).wrapping_mul(K2);
    let b: u64 = fetch64(s, 8);
    let c: u64 = fetch64(s, slen - 8).wrapping_mul(mul);
    let d: u64 = fetch64(s, slen - 16).wrapping_mul(K2);
    let y: u64 = rotate64(a.wrapping_add(b), 43).wrapping_add(rotate64(c, 30)).wrapping_add(d);
    let z: u64 = hash_len_16_mul(
        y,
        a.wrapping_add(rotate64(b.wrapping_add(K2), 18)).wrapping_add(c),
        mul,
    );
    let e: u64 = fetch64(s, 16).wrapping_mul(mul);
    let f: u64 = fetch64(s, 24);
    let g: u64 = (y.wrapping_add(fetch64(s, slen - 32))).wrapping_mul(mul);
    let h: u64 = (z.wrapping_add(fetch64(s, slen - 24))).wrapping_mul(mul);
    proof {
        lemma_wrap64_add(slen * 2, K2 as int);
        lemma_cross_stepwise(a, b, c, d, K2);
        lemma_wrap64_mul(y + spec_fetch64(s@, slen - 32), mul as int);
        lemma_wrap64_mul(z + spec_fetch64(s@, slen - 24), mul as int);
        lemma_cross_stepwise(e, f, g, h, a);
    }
    hash_len_16_mul(
        rotate64(e.wrapping_add(f), 43).wrapping_add(rotate64(g, 30)).wrapping_add(h),
        e.wrapping_add(rotate64(f.wrapping_add(a), 18)).wrapping_add(g),
        mul,
    )
}

/// Wrapping additions, one term at a time, compute the two crossed halves.
proof fn lemma_cross_stepwise(a: u64, b: u64, c: u64, d: u64, k: u64)
    ensures
        spec_cross(a, b, c, d, k) == (
            spec_rotate64(a.wrapping_add(b), 43).wrapping_add(spec_rotate64(c, 30)).wrapping_add(d),
            a.wrapping_add(spec_rotate64(b.wrapping_add(k), 18)).wrapping_add(c),
        ),
{
    lemma_wrap64_add(spec_rotate64(wrap64(a + b), 43) + spec_rotate64(c, 30), d as int);
    lemma_wrap64_add(a + spec_rotate64(wrap64(b + k), 18), c as int);
}

} // verus!
