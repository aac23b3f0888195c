//! A 64-bit fingerprint hash over byte strings, with a derived 32-bit form.
//!
//! The hash of an input is a function of its bytes alone: it takes no seed
//! from the caller, keeps nothing between calls and reads every word of the
//! input in little-endian order on every machine. It is not a cryptographic
//! hash.
//!
//! [`farmhash64`] and [`farmhash32`] are the two entry points. Their
//! contracts are stated over [`spec_farmhash64`] and [`spec_farmhash32`],
//! which say what the hash of a sequence of bytes is.
//!
//! The modules hold what the entry points are built from, each function with
//! its own contract: [`words`] reads and rotates words, [`mix`] holds the
//! mixing steps, [`bands`] hashes inputs of up to 64 bytes in closed form, and
//! [`blocks`] says how longer inputs are taken in, 64 bytes at a time.

use vstd::prelude::*;
use crate::bands::{
    hash_len_0_to_16, hash_len_17_to_32, hash_len_33_to_64, spec_hash_len_0_to_16,
    spec_hash_len_17_to_32, spec_hash_len_33_to_64,
};
use crate::blocks::{
    lemma_absorb_reads_64, lemma_absorb_stepwise, lemma_reduced_stepwise, lemma_seeded_stepwise,
    lemma_shifted_stepwise, lemma_weak_hash_reads_32, spec_absorb, spec_after_chunks, spec_chunk,
    spec_chunks, spec_hash_len_over_64, spec_last_multiplier, weak_hash_len_32_with_seeds,
    Accumulators, SEED,
};
use crate::mix::{hash_len_16_mul, mix_64_to_32, shift_mix, spec_mix_64_to_32, Uint128, K0, K1, K2};
use crate::words::{
    fetch64, lemma_wrap64_fits, lemma_wrapping_add64, lemma_wrapping_mul64_one, rotate64,
    spec_fetch64,
};

pub mod bands;
pub mod blocks;
pub mod mix;
pub mod words;

verus! {

/// The 64-bit fingerprint of the bytes `s`. The length of `s` alone selects
/// one of four bands; a length of exactly 16, 32 or 64 belongs to the lower
/// band.
pub open spec fn spec_farmhash64(s: Seq<u8>) -> u64 {
    if s.len() <= 16 {
        spec_hash_len_0_to_16(s)
    } else if s.len() <= 32 {
        spec_hash_len_17_to_32(s)
    } else if s.len() <= 64 {
        spec_hash_len_33_to_64(s)
    } else {
        spec_hash_len_over_64(s)
    }
}

/// The 32-bit fingerprint of the bytes `s`: the 64-bit fingerprint folded into
/// 32 bits.
pub open spec fn spec_farmhash32(s: Seq<u8>) -> u32 {
    spec_mix_64_to_32(spec_farmhash64(s))
}

/// Inputs that agree in length and in every byte have the same fingerprints:
/// a fingerprint depends on nothing but the bytes of the input.
pub proof fn lemma_fingerprint_of_bytes_alone(a: Seq<u8>, b: Seq<u8>)
    requires
        a.len() == b.len(),
        forall|i: int| 0 <= i < a.len() ==> a[i] == b[i],
    ensures
        spec_farmhash64(a) == spec_farmhash64(b),
        spec_farmhash32(a) == spec_farmhash32(b),
{
    assert(a =~= b);
}

/// The fingerprint of the empty input is `K2`.
pub proof fn lemma_fingerprint_of_empty(s: Seq<u8>)
    requires
        s.len() == 0,
    ensures
        spec_farmhash64(s) == K2,
{
}

/// The length of the input alone selects the band, and a length on a boundary
/// belongs to the band below it.
pub proof fn lemma_fingerprint_bands(s: Seq<u8>)
    ensures
        s.len() <= 16 ==> spec_farmhash64(s) == spec_hash_len_0_to_16(s),
        16 < s.len() <= 32 ==> spec_farmhash64(s) == spec_hash_len_17_to_32(s),
        32 < s.len() <= 64 ==> spec_farmhash64(s) == spec_hash_len_33_to_64(s),
        64 < s.len() ==> spec_farmhash64(s) == spec_hash_len_over_64(s),
{
}

/// Returns the 64-bit fingerprint of `s`. Every length is accepted.
#[inline]
pub fn farmhash64(s: &[u8]) -> (h: u64)
    ensures
        h == spec_farmhash64(s@),
        s@.len() == 0 ==> h == K2,
{
    let slen: usize = s.len();

    if slen <= 32 {
        if slen <= 16 {
            return hash_len_0_to_16(s);
        }
        return hash_len_17_to_32(s);
    }
    if slen <= 64 {
        return hash_len_33_to_64(s);
    }

    // For inputs over 64 bytes the state is v, w, x, y and z.
    let mut v = Uint128 { hi: 0, lo: 0 };
    let mut w = Uint128 { hi: 0, lo: 0 };
    let mut x: u64 = SEED.wrapping_mul(K2).wrapping_add(fetch64(s, 0));
    let mut y: u64 = SEED.wrapping_mul(K1).wrapping_add(113);
    let mut z: u64 = shift_mix(y.wrapping_mul(K2).wrapping_add(113)).wrapping_mul(K2);
    proof {
        lemma_seeded_stepwise(s@);
    }

    // After the loop 1 to 64 bytes are left; the last pass is over the last
    // 64 bytes of the input.
    let last: usize = slen - 1;
    assert(((last >> 6) << 6) + (last & 63) == last) by (bit_vector);
    let end_idx: usize = (last >> 6) << 6;
    let last64_idx: usize = end_idx + (last & 63) - 63;
    let last64: &[u8] = &s[last64_idx..slen];

    let mut rest: &[u8] = s;
    let ghost mut n: nat = 0;
    while rest.len() > 64
        invariant
            slen == s@.len(),
            rest@.len() >= 1,
            64 * n + rest@.len() == slen,
            rest@ == s@.subrange(64 * n as int, slen as int),
            (Accumulators { x, y, z, v, w }) == spec_after_chunks(s@, n),
        decreases rest@.len(),
    {
        let ghost st = Accumulators { x, y, z, v, w };
        x = rotate64(
            x.wrapping_add(y).wrapping_add(v.lo).wrapping_add(fetch64(rest, 8)),
            37,
        ).wrapping_mul(K1);
        y = rotate64(y.wrapping_add(v.hi).wrapping_add(fetch64(rest, 48)), 42).wrapping_mul(K1);
        x = x ^ w.hi;
        y = y.wrapping_add(v.lo).wrapping_add(fetch64(rest, 40));
        z = rotate64(z.wrapping_add(w.lo), 33).wrapping_mul(K1);
        v = weak_hash_len_32_with_seeds(rest, v.hi.wrapping_mul(K1), x.wrapping_add(w.lo));
        let ghost (a, b) = (z.wrapping_add(w.hi), y.wrapping_add(spec_fetch64(rest@, 16)));
        let upper: &[u8] = &rest[32..rest.len()];
        w = weak_hash_len_32_with_seeds(
            upper,
            z.wrapping_add(w.hi),
            y.wrapping_add(fetch64(rest, 16)),
        );
        std::mem::swap(&mut x, &mut z);
        proof {
            // What was computed is one pass over what is left of the input.
            let next = spec_absorb(st, rest@, K1, 1);
            lemma_wrapping_mul64_one(st.w.hi);
            lemma_wrapping_mul64_one(st.v.lo);
            lemma_absorb_stepwise(st, rest@, K1, 1);
            assert(z == next.z && y == next.y && x == next.x && v == next.v);
            assert(upper@.subrange(0, 32) == rest@.subrange(32, 64).subrange(0, 32));
            lemma_weak_hash_reads_32(upper@, rest@.subrange(32, 64), a, b);
            assert(w == next.w);
            // That pass reads no more than the chunk.
            let c = spec_chunk(s@, n);
            assert(rest@.subrange(0, 64) == c.subrange(0, 64));
            lemma_absorb_reads_64(st, rest@, c, K1, 1);
            assert(rest@.subrange(64, rest@.len() as int) == s@.subrange(
                64 * (n + 1) as int,
                slen as int,
            ));
            n = n + 1;
        }
        rest = &rest[64..rest.len()];
    }

    let mul: u64 = K1.wrapping_add((z & 0xff) << 1);
    assert((z & 0xff) << 1 == 2 * (z % 0x100)) by (bit_vector);
    let tail: u64 = last as u64 & 63;
    assert(tail == (last as u64) % 64) by (bit_vector)
        requires
            tail == last as u64 & 63,
    ;
    let ghost st = Accumulators { x, y, z, v, w };
    // The last pass reads the last 64 bytes of the input.
    w.lo = w.lo.wrapping_add(tail);
    v.lo = v.lo.wrapping_add(w.lo);
    w.lo = w.lo.wrapping_add(v.lo);
    let ghost st1 = Accumulators { x, y, z, v, w };
    x = rotate64(
        x.wrapping_add(y).wrapping_add(v.lo).wrapping_add(fetch64(last64, 8)),
        37,
    ).wrapping_mul(mul);
    y = rotate64(y.wrapping_add(v.hi).wrapping_add(fetch64(last64, 48)), 42).wrapping_mul(mul);
    x = x ^ w.hi.wrapping_mul(9);
    y = y.wrapping_add(v.lo.wrapping_mul(9)).wrapping_add(fetch64(last64, 40));
    z = rotate64(z.wrapping_add(w.lo), 33).wrapping_mul(mul);
    v = weak_hash_len_32_with_seeds(last64, v.hi.wrapping_mul(mul), x.wrapping_add(w.lo));
    w = weak_hash_len_32_with_seeds(
        &last64[32..64],
        z.wrapping_add(w.hi),
        y.wrapping_add(fetch64(last64, 16)),
    );
    std::mem::swap(&mut x, &mut z);
    proof {
        assert(n == spec_chunks(slen as nat));
        assert(mul == spec_last_multiplier(st.z)) by {
            lemma_wrapping_add64(K1, (st.z & 0xff) << 1);
            lemma_wrap64_fits(K1 + 2 * (st.z % 0x100));
        }
        lemma_shifted_stepwise(st, tail);
        lemma_absorb_stepwise(st1, last64@, mul, 9);
        lemma_reduced_stepwise(Accumulators { x, y, z, v, w }, mul);
    }
    hash_len_16_mul(
        hash_len_16_mul(v.lo, w.lo, mul).wrapping_add(shift_mix(y).wrapping_mul(K0)).wrapping_add(
            z,
        ),
        hash_len_16_mul(v.hi, w.hi, mul).wrapping_add(x),
        mul,
    )
}

/// Returns the 32-bit fingerprint of `s`: the 64-bit fingerprint folded into
/// 32 bits. Every length is accepted.
#[inline]
pub fn farmhash32(s: &[u8]) -> (h: u32)
    ensures
        h == spec_farmhash32(s@),
        h == spec_mix_64_to_32(spec_farmhash64(s@)),
{
    mix_64_to_32(farmhash64(s))
}

} // verus!
