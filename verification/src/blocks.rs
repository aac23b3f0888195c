//! The model of hashing an input of more than 64 bytes: five accumulators
//! that take in the input in chunks of 64 bytes, and a last pass over the
//! final 64 bytes of the input.
//!
//! The model is stated in ordinary integer arithmetic, reduced modulo 2^64
//! where a word is formed. The lemmas whose names end in `stepwise` restate
//! each part as the chain of wrapping operations that computes it.

use vstd::prelude::*;
use crate::mix::{
    spec_hash_len_16_mul, spec_shift_mix, spec_weak_hash_len_32_with_seeds_words,
    weak_hash_len_32_with_seeds_words, Uint128, K0, K1, K2,
};
use crate::words::{
    fetch64, group_wrapping, lemma_fetch64_subrange, lemma_wrap64_add, spec_fetch64,
    spec_rotate64, wrap64,
};

verus! {

/// The seed of the accumulators.
pub const SEED: u64 = 81;

/// The state that is carried from one chunk to the next: three words and two
/// pairs of lanes.
pub struct Accumulators {
    pub x: u64,
    pub y: u64,
    pub z: u64,
    pub v: Uint128,
    pub w: Uint128,
}

/// The pair of lanes that the first 32 bytes of `s` mix into with the seeds
/// `a` and `b`.
pub open spec fn spec_weak_hash_len_32_with_seeds(s: Seq<u8>, a: u64, b: u64) -> Uint128 {
    spec_weak_hash_len_32_with_seeds_words(
        spec_fetch64(s, 0),
        spec_fetch64(s, 8),
        spec_fetch64(s, 16),
        spec_fetch64(s, 24),
        a,
        b,
    )
}

/// Mixes the first 32 bytes of `s` with the seeds `a` and `b`.
#[inline]
pub fn weak_hash_len_32_with_seeds(s: &[u8], a: u64, b: u64) -> (r: Uint128)
    requires
        s@.len() >= 32,
    ensures
        r == spec_weak_hash_len_32_with_seeds(s@, a, b),
{
    weak_hash_len_32_with_seeds_words(
        fetch64(s, 0),
        fetch64(s, 8),
        fetch64(s, 16),
        fetch64(s, 24),
        a,
        b,
    )
}

/// The accumulators before any chunk is taken in. Only `x` depends on the
/// input, by its first eight bytes.
pub open spec fn spec_seeded(s: Seq<u8>) -> Accumulators {
    let y = wrap64(SEED * K1 + 113);
    Accumulators {
        x: wrap64(SEED * K2 + spec_fetch64(s, 0)),
        y,
        z: wrap64(spec_shift_mix(wrap64(y * K2 + 113)) * K2),
        v: Uint128 { hi: 0, lo: 0 },
        w: Uint128 { hi: 0, lo: 0 },
    }
}

/// The accumulators `st` after one pass over the 64 bytes of `c`, with the
/// multiplier `m` and the lane weight `k`.
///
/// The three words are renewed from the lanes and from the words of `c` at 8,
/// 40 and 48, the lanes `v` from the first half of `c` and the lanes `w` from
/// its second half and its word at 16; at the end `x` and `z` change places.
pub open spec fn spec_absorb(st: Accumulators, c: Seq<u8>, m: u64, k: u64) -> Accumulators {
    let x = wrap64(spec_rotate64(wrap64(st.x + st.y + st.v.lo + spec_fetch64(c, 8)), 37) * m)
        ^ wrap64(st.w.hi * k);
    let y = wrap64(
        spec_rotate64(wrap64(st.y + st.v.hi + spec_fetch64(c, 48)), 42) * m + st.v.lo * k
            + spec_fetch64(c, 40),
    );
    let z = wrap64(spec_rotate64(wrap64(st.z + st.w.lo), 33) * m);
    let v = spec_weak_hash_len_32_with_seeds(c, wrap64(st.v.hi * m), wrap64(x + st.w.lo));
    let w = spec_weak_hash_len_32_with_seeds(
        c.subrange(32, 64),
        wrap64(z + st.w.hi),
        wrap64(y + spec_fetch64(c, 16)),
    );
    Accumulators { x: z, y, z: x, v, w }
}

/// The chunk of `s` with the number `i`: the 64 bytes from position `64 * i`
/// on.
pub open spec fn spec_chunk(s: Seq<u8>, i: nat) -> Seq<u8> {
    s.subrange(64 * i as int, 64 * i as int + 64)
}

/// The number of chunks of an input of `n` bytes that are taken in before the
/// last pass: as many as leave between 1 and 64 bytes.
pub open spec fn spec_chunks(n: nat) -> nat {
    ((n - 1) / 64) as nat
}

/// The accumulators after the first `n` chunks of `s` are taken in, each with
/// the multiplier `K1` and the lane weight 1.
pub open spec fn spec_after_chunks(s: Seq<u8>, n: nat) -> Accumulators
    decreases n,
{
    if n == 0 {
        spec_seeded(s)
    } else {
        spec_absorb(spec_after_chunks(s, (n - 1) as nat), spec_chunk(s, (n - 1) as nat), K1, 1)
    }
}

/// The multiplier of the last pass: `K1` plus twice the low byte of the
/// accumulator `z`.
pub open spec fn spec_last_multiplier(z: u64) -> u64 {
    (K1 + 2 * (z % 0x100)) as u64
}

/// The accumulators `st` with the low lanes moved by `t`, as they enter the
/// last pass: `t` goes into the low lane of `w`, that into the low lane of
/// `v`, and that back into the low lane of `w`.
pub open spec fn spec_shifted(st: Accumulators, t: nat) -> Accumulators {
    let w_lo = wrap64(st.w.lo + t);
    let v_lo = wrap64(st.v.lo + w_lo);
    Accumulators {
        x: st.x,
        y: st.y,
        z: st.z,
        v: Uint128 { hi: st.v.hi, lo: v_lo },
        w: Uint128 { hi: st.w.hi, lo: wrap64(w_lo + v_lo) },
    }
}

/// The accumulators `st` reduced to one word under the multiplier `m`.
pub open spec fn spec_reduced(st: Accumulators, m: u64) -> u64 {
    spec_hash_len_16_mul(
        wrap64(
            spec_hash_len_16_mul(st.v.lo, st.w.lo, m) + wrap64(spec_shift_mix(st.y) * K0) + st.z,
        ),
        wrap64(spec_hash_len_16_mul(st.v.hi, st.w.hi, m) + st.x),
        m,
    )
}

/// The hash that the accumulators `st` give after the last pass. That pass is
/// over the 64 bytes of `c` with the lane weight 9, and `t` is one less than
/// the number of bytes that the chunks taken in before have left.
pub open spec fn spec_finished(st: Accumulators, c: Seq<u8>, t: nat) -> u64 {
    let m = spec_last_multiplier(st.z);
    spec_reduced(spec_absorb(spec_shifted(st, t), c, m, 9), m)
}

/// The hash of an input of more than 64 bytes: its chunks of 64 bytes are
/// taken in, in order, as long as more than 64 bytes remain; the last pass is
/// over the last 64 bytes of the input, which may overlap the chunk before.
pub open spec fn spec_hash_len_over_64(s: Seq<u8>) -> u64 {
    let n = s.len();
    spec_finished(
        spec_after_chunks(s, spec_chunks(n)),
        s.subrange(n - 64, n as int),
        ((n - 1) % 64) as nat,
    )
}

/// The chunks that are taken in before the last pass leave between 1 and 64
/// bytes of an input of `n` bytes, one more than `(n - 1) % 64`, and the last
/// 64 bytes of the input begin where the count of chunks and that remainder
/// say.
pub proof fn lemma_chunks_leave_a_tail(n: nat)
    requires
        n > 64,
    ensures
        spec_chunks(n) >= 1,
        1 <= n - 64 * spec_chunks(n) <= 64,
        n - 64 * spec_chunks(n) == (n - 1) % 64 + 1,
        n - 64 == 64 * spec_chunks(n) + (n - 1) % 64 - 63,
{
}

/// The lanes depend on the first 32 bytes of the input alone.
pub proof fn lemma_weak_hash_reads_32(s: Seq<u8>, t: Seq<u8>, a: u64, b: u64)
    requires
        s.len() >= 32,
        t.len() >= 32,
        s.subrange(0, 32) == t.subrange(0, 32),
    ensures
        spec_weak_hash_len_32_with_seeds(s, a, b) == spec_weak_hash_len_32_with_seeds(t, a, b),
{
    lemma_fetch64_subrange(s, 0, 32, 0);
    lemma_fetch64_subrange(s, 0, 32, 8);
    lemma_fetch64_subrange(s, 0, 32, 16);
    lemma_fetch64_subrange(s, 0, 32, 24);
    lemma_fetch64_subrange(t, 0, 32, 0);
    lemma_fetch64_subrange(t, 0, 32, 8);
    lemma_fetch64_subrange(t, 0, 32, 16);
    lemma_fetch64_subrange(t, 0, 32, 24);
}

/// One pass depends on the first 64 bytes of the input alone.
pub proof fn lemma_absorb_reads_64(st: Accumulators, c: Seq<u8>, d: Seq<u8>, m: u64, k: u64)
    requires
        c.len() >= 64,
        d.len() >= 64,
        c.subrange(0, 64) == d.subrange(0, 64),
    ensures
        spec_absorb(st, c, m, k) == spec_absorb(st, d, m, k),
{
    lemma_fetch64_subrange(c, 0, 64, 8);
    lemma_fetch64_subrange(c, 0, 64, 16);
    lemma_fetch64_subrange(c, 0, 64, 40);
    lemma_fetch64_subrange(c, 0, 64, 48);
    lemma_fetch64_subrange(d, 0, 64, 8);
    lemma_fetch64_subrange(d, 0, 64, 16);
    lemma_fetch64_subrange(d, 0, 64, 40);
    lemma_fetch64_subrange(d, 0, 64, 48);
    assert(c.subrange(0, 64).subrange(0, 32) == c.subrange(0, 32));
    assert(d.subrange(0, 64).subrange(0, 32) == d.subrange(0, 32));
    assert(c.subrange(0, 64).subrange(32, 64) == c.subrange(32, 64));
    assert(d.subrange(0, 64).subrange(32, 64) == d.subrange(32, 64));
    assert forall|a: u64, b: u64|
        spec_weak_hash_len_32_with_seeds(c, a, b) == spec_weak_hash_len_32_with_seeds(
            d,
            a,
            b,
        ) by {
        lemma_weak_hash_reads_32(c, d, a, b);
    }
}

/// The accumulators before any chunk, one wrapping operation at a time.
pub proof fn lemma_seeded_stepwise(s: Seq<u8>)
    ensures
        spec_seeded(s) == ({
            let y = SEED.wrapping_mul(K1).wrapping_add(113);
            Accumulators {
                x: SEED.wrapping_mul(K2).wrapping_add(spec_fetch64(s, 0)),
                y,
                z: spec_shift_mix(y.wrapping_mul(K2).wrapping_add(113)).wrapping_mul(K2),
                v: Uint128 { hi: 0, lo: 0 },
                w: Uint128 { hi: 0, lo: 0 },
            }
        }),
{
    broadcast use group_wrapping;

    let y = SEED.wrapping_mul(K1).wrapping_add(113);
    lemma_wrap64_add(SEED * K2, spec_fetch64(s, 0) as int);
    lemma_wrap64_add(SEED * K1, 113);
    lemma_wrap64_add(y * K2, 113);
}

/// One pass, one wrapping operation at a time.
pub proof fn lemma_absorb_stepwise(st: Accumulators, c: Seq<u8>, m: u64, k: u64)
    ensures
        spec_absorb(st, c, m, k) == ({
            let x1 = spec_rotate64(
                st.x.wrapping_add(st.y).wrapping_add(st.v.lo).wrapping_add(spec_fetch64(c, 8)),
                37,
            ).wrapping_mul(m);
            let y1 = spec_rotate64(
                st.y.wrapping_add(st.v.hi).wrapping_add(spec_fetch64(c, 48)),
                42,
            ).wrapping_mul(m);
            let x2 = x1 ^ st.w.hi.wrapping_mul(k);
            let y2 = y1.wrapping_add(st.v.lo.wrapping_mul(k)).wrapping_add(spec_fetch64(c, 40));
            let z1 = spec_rotate64(st.z.wrapping_add(st.w.lo), 33).wrapping_mul(m);
            Accumulators {
                x: z1,
                y: y2,
                z: x2,
                v: spec_weak_hash_len_32_with_seeds(
                    c,
                    st.v.hi.wrapping_mul(m),
                    x2.wrapping_add(st.w.lo),
                ),
                w: spec_weak_hash_len_32_with_seeds(
                    c.subrange(32, 64),
                    z1.wrapping_add(st.w.hi),
                    y2.wrapping_add(spec_fetch64(c, 16)),
                ),
            }
        }),
{
    broadcast use group_wrapping;

    let f8 = spec_fetch64(c, 8);
    let f40 = spec_fetch64(c, 40);
    let f48 = spec_fetch64(c, 48);
    lemma_wrap64_add(st.x + st.y, st.v.lo as int);
    lemma_wrap64_add(st.x + st.y + st.v.lo, f8 as int);
    lemma_wrap64_add(st.y + st.v.hi, f48 as int);
    let r = spec_rotate64(wrap64(st.y + st.v.hi + f48), 42);
    lemma_wrap64_add(r * m, st.v.lo * k);
    lemma_wrap64_add(wrap64(r * m) as int, st.v.lo * k);
    lemma_wrap64_add(r * m + st.v.lo * k, f40 as int);
    lemma_wrap64_add(wrap64(r * m) + wrap64(st.v.lo * k), f40 as int);
}

/// The lanes as they enter the last pass, one wrapping operation at a time.
pub proof fn lemma_shifted_stepwise(st: Accumulators, t: u64)
    ensures
        spec_shifted(st, t as nat) == ({
            let w_lo = st.w.lo.wrapping_add(t);
            let v_lo = st.v.lo.wrapping_add(w_lo);
            Accumulators {
                x: st.x,
                y: st.y,
                z: st.z,
                v: Uint128 { hi: st.v.hi, lo: v_lo },
                w: Uint128 { hi: st.w.hi, lo: w_lo.wrapping_add(v_lo) },
            }
        }),
{
    broadcast use group_wrapping;

}

/// The last reduction, one wrapping operation at a time.
pub proof fn lemma_reduced_stepwise(st: Accumulators, m: u64)
    ensures
        spec_reduced(st, m) == spec_hash_len_16_mul(
            spec_hash_len_16_mul(st.v.lo, st.w.lo, m).wrapping_add(
                spec_shift_mix(st.y).wrapping_mul(K0),
            ).wrapping_add(st.z),
            spec_hash_len_16_mul(st.v.hi, st.w.hi, m).wrapping_add(st.x),
            m,
        ),
{
    broadcast use group_wrapping;

    let a = spec_hash_len_16_mul(st.v.lo, st.w.lo, m);
    let b = wrap64(spec_shift_mix(st.y) * K0);
    lemma_wrap64_add(a + b, st.z as int);
}

} // verus!
