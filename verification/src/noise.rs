//! Deterministic scalar noise from small integer keys.
//!
//! `uhash` is an integer avalanche hash (multiply-xor-shift rounds over a
//! 32-bit accumulator).  `hash_noise` packs a sub-ring index and a seed into
//! one key, hashes it against the ring index, and normalizes the result to a
//! fixed-point fraction in `[0, UNIT]`.  This is the sole source of
//! "randomness" in the simulation: the same keys give the same value on
//! every call, every run and every platform.

use vstd::prelude::*;

verus! {

use crate::UNIT;

/// `x * k` reduced modulo 2^32: the wrapping 32-bit product.
pub open spec fn mul_mod32(x: u32, k: u32) -> u32 {
    (((x as int) * (k as int)) % 0x1_0000_0000) as u32
}

/// One avalanche pass: xor-shift folds around two wrapping multiplications,
/// spreading every input bit over the whole accumulator.
pub open spec fn avalanche_spec(x: u32) -> u32 {
    let a = x ^ (x >> 16);
    let b = mul_mod32(a, 0x7feb_352d);
    let c = b ^ (b >> 15);
    let d = mul_mod32(c, 0x846c_a68b);
    d ^ (d >> 16)
}

/// The hash of a pair of keys: each key is diffused by a wrapping
/// multiplication with an odd constant, the two are folded together with
/// xor, and the result is avalanched.
pub open spec fn uhash_spec(a: u32, b: u32) -> u32 {
    avalanche_spec(mul_mod32(a, 1_597_334_673) ^ mul_mod32(b, 3_812_015_801))
}

/// The combined key `y * 2048 + z`, wrapped to 32 bits: the sub-ring index
/// shifted into the high bits with the seed in the low bits.
pub open spec fn sub_key_spec(y: u32, z: u32) -> u32 {
    (((y as int) * 2048 + (z as int)) % 0x1_0000_0000) as u32
}

/// A 32-bit hash value scaled into `[0, UNIT]`: the fixed-point counterpart
/// of dividing by the maximum representable unsigned value.
pub open spec fn unorm_spec(n: u32) -> int {
    (n as int) * (UNIT as int) / 0xffff_ffff
}

/// The noise value for a `(ring, sub_ring, seed)` triple, in `[0, UNIT]`.
/// Opaque: callers reason through `lemma_noise_bounds` and the contract of
/// `hash_noise` rather than through the hash pipeline itself.
#[verifier::opaque]
pub open spec fn noise_spec(x: u32, y: u32, z: u32) -> int {
    unorm_spec(uhash_spec(x, sub_key_spec(y, z)))
}

/// `unorm_spec` never leaves `[0, UNIT]`.
pub proof fn lemma_unorm_bounds(n: u32)
    ensures
        0 <= unorm_spec(n) <= UNIT,
{
    assert((n as int) * (UNIT as int) <= 0xffff_ffff * (UNIT as int));
    vstd::arithmetic::div_mod::lemma_div_is_ordered(
        (n as int) * (UNIT as int),
        0xffff_ffff * (UNIT as int),
        0xffff_ffff,
    );
}

/// `noise_spec` never leaves `[0, UNIT]`.
pub proof fn lemma_noise_bounds(x: u32, y: u32, z: u32)
    ensures
        0 <= noise_spec(x, y, z) <= UNIT,
{
    reveal(noise_spec);
    lemma_unorm_bounds(uhash_spec(x, sub_key_spec(y, z)));
}

/// The wrapping 32-bit product, computed through a 64-bit intermediate.
fn wrap_mul32(x: u32, k: u32) -> (r: u32)
    ensures
        r == mul_mod32(x, k),
{
    proof {
        vstd::arithmetic::mul::lemma_mul_upper_bound(
            x as int,
            0xffff_ffff,
            k as int,
            0xffff_ffff,
        );
    }
    let p: u64 = (x as u64) * (k as u64);
    (p % 0x1_0000_0000) as u32
}

/// The deterministic avalanche hash of two 32-bit keys.
pub fn uhash(a: u32, b: u32) -> (r: u32)
    ensures
        r == uhash_spec(a, b),
{
    let mut x: u32 = wrap_mul32(a, 1_597_334_673) ^ wrap_mul32(b, 3_812_015_801);
    x = x ^ (x >> 16);
    x = wrap_mul32(x, 0x7feb_352d);
    x = x ^ (x >> 15);
    x = wrap_mul32(x, 0x846c_a68b);
    x ^ (x >> 16)
}

/// Scales a 32-bit hash value into a fixed-point fraction of `UNIT`.
pub fn unorm_micro(n: u32) -> (r: u64)
    ensures
        r == unorm_spec(n),
        r <= UNIT,
{
    proof {
        lemma_unorm_bounds(n);
    }
    (n as u64) * UNIT / 0xffff_ffff
}

/// The noise value for a `(ring, sub_ring, seed)` triple, in `[0, UNIT]`.
pub fn hash_noise(x: u32, y: u32, z: u32) -> (r: u64)
    ensures
        r == noise_spec(x, y, z),
        r <= UNIT,
{
    proof {
        reveal(noise_spec);
    }
    let packed: u64 = ((y as u64) * 2048 + (z as u64)) % 0x1_0000_0000;
    let h: u32 = uhash(x, packed as u32);
    unorm_micro(h)
}

} // verus!
