//! Fixed-width words: reduction modulo the word size, rotation, and
//! little-endian reads from a byte string.
//!
//! The reductions and the reads are opaque to the solver, which keeps the
//! proofs that build on them small; `reveal` brings their definitions back
//! where a proof needs them.

use vstd::arithmetic::div_mod::{lemma_add_mod_noop_right, lemma_mul_mod_noop_left};
use vstd::prelude::*;

verus! {

/// The integer `x` reduced modulo 2^64.
#[verifier::opaque]
pub open spec fn wrap64(x: int) -> u64 {
    (x % 0x1_0000_0000_0000_0000) as u64
}

/// The integer `x` reduced modulo 2^32.
#[verifier::opaque]
pub open spec fn wrap32(x: int) -> u32 {
    (x % 0x1_0000_0000) as u32
}

/// Reduction leaves a number that already fits in 64 bits unchanged.
pub proof fn lemma_wrap64_fits(x: int)
    requires
        0 <= x < 0x1_0000_0000_0000_0000,
    ensures
        wrap64(x) == x,
{
    reveal(wrap64);
}

/// Wrapping addition of 64-bit words is addition followed by reduction.
pub broadcast proof fn lemma_wrapping_add64(x: u64, y: u64)
    ensures
        #[trigger] vstd::wrapping::u64_specs::wrapping_add(x, y) == wrap64(x + y),
{
    reveal(wrap64);
}

/// Wrapping multiplication of 64-bit words is multiplication followed by
/// reduction.
pub broadcast proof fn lemma_wrapping_mul64(x: u64, y: u64)
    ensures
        #[trigger] vstd::wrapping::u64_specs::wrapping_mul(x, y) == wrap64(x * y),
{
    reveal(wrap64);
}

/// Wrapping multiplication by one changes nothing.
pub proof fn lemma_wrapping_mul64_one(v: u64)
    ensures
        v.wrapping_mul(1) == v,
{
}

/// Wrapping addition of 32-bit words is addition followed by reduction.
pub broadcast proof fn lemma_wrapping_add32(x: u32, y: u32)
    ensures
        #[trigger] vstd::wrapping::u32_specs::wrapping_add(x, y) == wrap32(x + y),
{
    reveal(wrap32);
}

/// Wrapping multiplication of 32-bit words is multiplication followed by
/// reduction.
pub broadcast proof fn lemma_wrapping_mul32(x: u32, y: u32)
    ensures
        #[trigger] vstd::wrapping::u32_specs::wrapping_mul(x, y) == wrap32(x * y),
{
    reveal(wrap32);
}

/// A sum may be reduced modulo 2^64 at any of its terms without changing its
/// reduced value.
pub proof fn lemma_wrap64_add(p: int, q: int)
    ensures
        wrap64(wrap64(p) + q) == wrap64(p + q),
        wrap64(p + wrap64(q)) == wrap64(p + q),
{
    reveal(wrap64);
    lemma_add_mod_noop_right(q, p, 0x1_0000_0000_0000_0000);
    lemma_add_mod_noop_right(p, q, 0x1_0000_0000_0000_0000);
}

/// A product may be reduced modulo 2^64 at its first factor without changing
/// its reduced value.
pub proof fn lemma_wrap64_mul(p: int, q: int)
    ensures
        wrap64(wrap64(p) * q) == wrap64(p * q),
{
    reveal(wrap64);
    lemma_mul_mod_noop_left(p, q, 0x1_0000_0000_0000_0000);
}

/// A sum may be reduced modulo 2^32 at any of its terms without changing its
/// reduced value.
pub proof fn lemma_wrap32_add(p: int, q: int)
    ensures
        wrap32(wrap32(p) + q) == wrap32(p + q),
        wrap32(p + wrap32(q)) == wrap32(p + q),
{
    reveal(wrap32);
    lemma_add_mod_noop_right(q, p, 0x1_0000_0000);
    lemma_add_mod_noop_right(p, q, 0x1_0000_0000);
}

/// What wrapping arithmetic on words computes, in terms of reduction.
pub broadcast group group_wrapping {
    lemma_wrapping_add64,
    lemma_wrapping_mul64,
    lemma_wrapping_add32,
    lemma_wrapping_mul32,
}

/// `v` rotated right by `n` bit positions within 64 bits. A rotation by a
/// multiple of 64 leaves `v` unchanged.
pub open spec fn spec_rotate64(v: u64, n: u32) -> u64 {
    let k = n % 64;
    if k == 0 {
        v
    } else {
        (v >> k) | (v << ((64 - k) as u32))
    }
}

/// `v` rotated right by `n` bit positions within 32 bits. A rotation by a
/// multiple of 32 leaves `v` unchanged.
pub open spec fn spec_rotate32(v: u32, n: u32) -> u32 {
    let k = n % 32;
    if k == 0 {
        v
    } else {
        (v >> k) | (v << ((32 - k) as u32))
    }
}

/// Rotation moves the bit at position `i + n`, counted modulo 64, to position
/// `i`, so no bit is lost and none is made up.
pub proof fn lemma_rotate64_moves_bits(v: u64, n: u32, i: u32)
    requires
        i < 64,
    ensures
        (spec_rotate64(v, n) >> i) & 1 == (v >> (((i + n % 64) % 64) as u32)) & 1,
{
    let k = n % 64;
    let j = ((i + k) % 64) as u32;
    if k != 0 {
        assert((((v >> k) | (v << ((64 - k) as u32))) >> i) & 1 == (v >> j) & 1) by (bit_vector)
            requires
                0 < k < 64,
                i < 64,
                j == (i + k) % 64,
        ;
    }
}

/// Rotation moves the bit at position `i + n`, counted modulo 32, to position
/// `i`, so no bit is lost and none is made up.
pub proof fn lemma_rotate32_moves_bits(v: u32, n: u32, i: u32)
    requires
        i < 32,
    ensures
        (spec_rotate32(v, n) >> i) & 1 == (v >> (((i + n % 32) % 32) as u32)) & 1,
{
    let k = n % 32;
    let j = ((i + k) % 32) as u32;
    if k != 0 {
        assert((((v >> k) | (v << ((32 - k) as u32))) >> i) & 1 == (v >> j) & 1) by (bit_vector)
            requires
                0 < k < 32,
                i < 32,
                j == (i + k) % 32,
        ;
    }
}

/// Rotates `val` right by `shift` bits. A shift of nothing, or of a whole
/// number of turns, returns `val`.
#[inline]
pub fn rotate32(val: u32, shift: u32) -> (r: u32)
    ensures
        r == spec_rotate32(val, shift),
        shift % 32 == 0 ==> r == val,
{
    let k: u32 = shift % 32;
    if k == 0 {
        val
    } else {
        (val >> k) | (val << (32 - k))
    }
}

/// Rotates `val` right by `shift` bits. A shift of nothing, or of a whole
/// number of turns, returns `val`.
#[inline]
pub fn rotate64(val: u64, shift: u32) -> (r: u64)
    ensures
        r == spec_rotate64(val, shift),
        shift % 64 == 0 ==> r == val,
{
    let k: u32 = shift % 64;
    if k == 0 {
        val
    } else {
        (val >> k) | (val << (64 - k))
    }
}

/// The four bytes of `s` from position `i` on, read as one little-endian
/// number: the byte at `i` counts least.
#[verifier::opaque]
pub open spec fn spec_fetch32(s: Seq<u8>, i: int) -> u64 {
    (s[i] + s[i + 1] * 0x100 + s[i + 2] * 0x1_0000 + s[i + 3] * 0x100_0000) as u64
}

/// The eight bytes of `s` from position `i` on, read as one little-endian
/// number: the byte at `i` counts least.
#[verifier::opaque]
pub open spec fn spec_fetch64(s: Seq<u8>, i: int) -> u64 {
    (s[i] + s[i + 1] * 0x100 + s[i + 2] * 0x1_0000 + s[i + 3] * 0x100_0000 + s[i + 4]
        * 0x1_0000_0000 + s[i + 5] * 0x100_0000_0000 + s[i + 6] * 0x1_0000_0000_0000 + s[i + 7]
        * 0x100_0000_0000_0000) as u64
}

/// The byte with the number `k` of the word read at `i`, counted from the
/// least byte, is the byte of `s` at `i + k`.
pub proof fn lemma_fetch64_bytes(s: Seq<u8>, i: int, k: u32)
    requires
        k < 8,
    ensures
        (spec_fetch64(s, i) >> ((8 * k) as u32)) & 0xff == s[i + k],
{
    reveal(spec_fetch64);
    let (b0, b1, b2, b3) = (s[i], s[i + 1], s[i + 2], s[i + 3]);
    let (b4, b5, b6, b7) = (s[i + 4], s[i + 5], s[i + 6], s[i + 7]);
    let w = spec_fetch64(s, i);
    let b = s[i + k];
    assert((w >> ((8 * k) as u32)) & 0xff == b) by (bit_vector)
        requires
            w == b0 + b1 * 0x100 + b2 * 0x1_0000 + b3 * 0x100_0000 + b4 * 0x1_0000_0000 + b5
                * 0x100_0000_0000 + b6 * 0x1_0000_0000_0000 + b7 * 0x100_0000_0000_0000,
            k < 8,
            b == if k == 0 {
                b0
            } else if k == 1 {
                b1
            } else if k == 2 {
                b2
            } else if k == 3 {
                b3
            } else if k == 4 {
                b4
            } else if k == 5 {
                b5
            } else if k == 6 {
                b6
            } else {
                b7
            },
    ;
}

/// The byte with the number `k` of the half word read at `i`, counted from the
/// least byte, is the byte of `s` at `i + k`; the upper half of the result is
/// empty.
pub proof fn lemma_fetch32_bytes(s: Seq<u8>, i: int, k: u32)
    requires
        k < 4,
    ensures
        (spec_fetch32(s, i) >> ((8 * k) as u32)) & 0xff == s[i + k],
        spec_fetch32(s, i) < 0x1_0000_0000,
{
    reveal(spec_fetch32);
    let (b0, b1, b2, b3) = (s[i], s[i + 1], s[i + 2], s[i + 3]);
    let w = spec_fetch32(s, i);
    let b = s[i + k];
    assert((w >> ((8 * k) as u32)) & 0xff == b) by (bit_vector)
        requires
            w == b0 + b1 * 0x100 + b2 * 0x1_0000 + b3 * 0x100_0000,
            k < 4,
            b == if k == 0 {
                b0
            } else if k == 1 {
                b1
            } else if k == 2 {
                b2
            } else {
                b3
            },
    ;
}

/// A word of a part of `s` is the word of `s` at the same place.
pub proof fn lemma_fetch64_subrange(s: Seq<u8>, from: int, to: int, i: int)
    requires
        0 <= from <= to <= s.len(),
        0 <= i,
        i + 8 <= to - from,
    ensures
        spec_fetch64(s.subrange(from, to), i) == spec_fetch64(s, from + i),
{
    reveal(spec_fetch64);
}

/// Reads four bytes of `s`, starting at `idx`, as a little-endian number.
#[inline]
pub fn fetch32(s: &[u8], idx: usize) -> (r: u64)
    requires
        idx + 4 <= s@.len(),
    ensures
        r == spec_fetch32(s@, idx as int),
        r < 0x1_0000_0000,
{
    reveal(spec_fetch32);
    let b0: u8 = s[idx];
    let b1: u8 = s[idx + 1];
    let b2: u8 = s[idx + 2];
    let b3: u8 = s[idx + 3];
    assert((b0 as u64) | ((b1 as u64) << 8) | ((b2 as u64) << 16) | ((b3 as u64) << 24) == b0 + b1
        * 0x100 + b2 * 0x1_0000 + b3 * 0x100_0000) by (bit_vector);
    (b0 as u64) | ((b1 as u64) << 8) | ((b2 as u64) << 16) | ((b3 as u64) << 24)
}

/// Reads eight bytes of `s`, starting at `idx`, as a little-endian number.
#[inline]
pub fn fetch64(s: &[u8], idx: usize) -> (r: u64)
    requires
        idx + 8 <= s@.len(),
    ensures
        r == spec_fetch64(s@, idx as int),
{
    reveal(spec_fetch64);
    let b0: u8 = s[idx];
    let b1: u8 = s[idx + 1];
    let b2: u8 = s[idx + 2];
    let b3: u8 = s[idx + 3];
    let b4: u8 = s[idx + 4];
    let b5: u8 = s[idx + 5];
    let b6: u8 = s[idx + 6];
    let b7: u8 = s[idx + 7];
    assert((b0 as u64) | ((b1 as u64) << 8) | ((b2 as u64) << 16) | ((b3 as u64) << 24) | ((
    b4 as u64) << 32) | ((b5 as u64) << 40) | ((b6 as u64) << 48) | ((b7 as u64) << 56) == b0 + b1
        * 0x100 + b2 * 0x1_0000 + b3 * 0x100_0000 + b4 * 0x1_0000_0000 + b5 * 0x100_0000_0000 + b6
        * 0x1_0000_0000_0000 + b7 * 0x100_0000_0000_0000) by (bit_vector);
    (b0 as u64) | ((b1 as u64) << 8) | ((b2 as u64) << 16) | ((b3 as u64) << 24) | ((b4 as u64)
        << 32) | ((b5 as u64) << 40) | ((b6 as u64) << 48) | ((b7 as u64) << 56)
}

} // verus!
