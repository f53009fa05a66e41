//! The procedural ring field: pure functions from a ring index (plus a
//! sub-ring index and a seed) to that ring's angular speed, gap size and
//! gap count.
//!
//! Nothing is stored: every attribute is recomputed on demand from the
//! noise source, which keeps memory constant however deep the player
//! climbs and makes every ring fully reproducible.

use vstd::prelude::*;

verus! {

use crate::UNIT;
use crate::noise::{noise_spec, lemma_noise_bounds, hash_noise};

/// The angular speed of a ring: an unsigned magnitude in micro-revolutions
/// per second together with the direction of travel.  Adjacent rings
/// counter-rotate, which is what makes gap alignment a timing puzzle.
#[derive(Clone, Copy, PartialEq, Eq, Debug)]
pub struct RingSpeed {
    /// Rotation rate in micro-revolutions per game second.
    pub magnitude: u64,
    /// True on even rings, which rotate in the negative direction.
    pub reversed: bool,
}

/// Speed magnitude: the noise value biased away from zero, scaled down as
/// the ring index grows so outer rings rotate slower.
/// Opaque: callers reason through `lemma_speed_mag_bounds` and the contract
/// of `ring_speed`.
#[verifier::opaque]
pub open spec fn speed_mag_spec(ring: u32, sub_ring: u32, seed: u32) -> int {
    (noise_spec(ring, sub_ring, seed) + 800_000) / (ring as int + 1)
}

/// Even rings run in the reversed direction; odd rings run forward.
pub open spec fn speed_reversed_spec(ring: u32) -> bool {
    ring % 2 == 0
}

/// Gap size as a fraction of a full revolution, in micro-units: the noise
/// value squeezed into a playable band and shrunk as the ring index grows,
/// clamped defensively so it never degenerates to zero or to a full turn.
/// Opaque: callers reason through `lemma_gap_size_bounds` and the contract
/// of `gap_size`.
#[verifier::opaque]
pub open spec fn gap_size_spec(ring: u32, sub_ring: u32, seed: u32) -> int {
    let num = noise_spec(ring, sub_ring, seed) / 5 + 200_000;
    let den = 13 * (ring as int + 1) + 200;
    let raw = num * 100 / den;
    if raw < 1 {
        1
    } else {
        raw
    }
}

/// Number of candidate gaps on a ring: 2 on low rings, one more for every
/// fourth ring past 16, clamped to `[2, 6]`.  A step function of the ring
/// index alone, never randomized.
pub open spec fn gap_count_spec(ring: u32) -> int {
    let raw = if ring < 16 {
        0
    } else {
        (ring - 16) / 4
    };
    if raw < 2 {
        2int
    } else if raw > 6 {
        6int
    } else {
        raw
    }
}

/// The speed magnitude lies in `(0, 1_800_000]`.
pub proof fn lemma_speed_mag_bounds(ring: u32, sub_ring: u32, seed: u32)
    ensures
        0 <= speed_mag_spec(ring, sub_ring, seed) <= 1_800_000,
{
    reveal(speed_mag_spec);
    lemma_noise_bounds(ring, sub_ring, seed);
    let biased = noise_spec(ring, sub_ring, seed) + 800_000;
    vstd::arithmetic::div_mod::lemma_div_pos_is_pos(biased, ring as int + 1);
    vstd::arithmetic::div_mod::lemma_div_nonincreasing(biased, ring as int + 1);
}

/// The gap size lies strictly between 0 and `UNIT`: a gap is never empty
/// and never the whole ring.
pub proof fn lemma_gap_size_bounds(ring: u32, sub_ring: u32, seed: u32)
    ensures
        0 < gap_size_spec(ring, sub_ring, seed) < 200_000,
{
    reveal(gap_size_spec);
    lemma_noise_bounds(ring, sub_ring, seed);
    let num = noise_spec(ring, sub_ring, seed) / 5 + 200_000;
    let den = 13 * (ring as int + 1) + 200;
    assert(num <= 400_000);
    assert(den >= 213);
    vstd::arithmetic::div_mod::lemma_div_is_ordered_by_denominator(num * 100, 213, den);
    vstd::arithmetic::div_mod::lemma_div_is_ordered(num * 100, 40_000_000, 213);
}

/// The angular speed of a ring, reproducible from its arguments alone.
pub fn ring_speed(ring: u32, sub_ring: u32, seed: u32) -> (r: RingSpeed)
    ensures
        r.magnitude == speed_mag_spec(ring, sub_ring, seed),
        r.reversed == speed_reversed_spec(ring),
        r.magnitude <= 1_800_000,
{
    proof {
        reveal(speed_mag_spec);
        lemma_speed_mag_bounds(ring, sub_ring, seed);
    }
    let n: u64 = hash_noise(ring, sub_ring, seed);
    RingSpeed { magnitude: (n + 800_000) / ((ring as u64) + 1), reversed: ring % 2 == 0 }
}

/// The gap size of a ring, in micro-revolutions, reproducible from its
/// arguments alone.
pub fn gap_size(ring: u32, sub_ring: u32, seed: u32) -> (r: u64)
    ensures
        r == gap_size_spec(ring, sub_ring, seed),
        0 < r < 200_000,
{
    proof {
        reveal(gap_size_spec);
        lemma_gap_size_bounds(ring, sub_ring, seed);
    }
    let n: u64 = hash_noise(ring, sub_ring, seed);
    let num: u64 = n / 5 + 200_000;
    let den: u64 = 13 * ((ring as u64) + 1) + 200;
    let raw: u64 = num * 100 / den;
    if raw < 1 {
        1
    } else {
        raw
    }
}

/// The number of candidate gaps on a ring, always in `[2, 6]`.
pub fn gap_count(ring: u32) -> (r: u32)
    ensures
        r == gap_count_spec(ring),
        2 <= r <= 6,
{
    let raw: u32 = if ring < 16 {
        0
    } else {
        (ring - 16) / 4
    };
    if raw < 2 {
        2
    } else if raw > 6 {
        6
    } else {
        raw
    }
}

/// The phase contributed by a ring's rotation after `t` micro-seconds of
/// game time at `mag` micro-revolutions per second, with the per-ring
/// multiplier folded back in, before the direction is applied.
/// Opaque: callers reason through `lemma_ring_phase_bounds` and the
/// contract of `ring_phase`.
#[verifier::opaque]
pub open spec fn phase_raw_spec(t: u64, mag: int, turns: int) -> int {
    ((t as int) * mag * turns / (UNIT as int)) % (UNIT as int)
}

/// The rotation phase of a ring at game time `t`, in `[0, UNIT)`: the raw
/// phase, mirrored for rings that rotate in the reversed direction.
pub open spec fn ring_phase_spec(t: u64, ring: u32, sub_ring: u32, seed: u32) -> int {
    let raw = phase_raw_spec(t, speed_mag_spec(ring, sub_ring, seed), ring as int + 1);
    if speed_reversed_spec(ring) {
        (UNIT - raw) % (UNIT as int)
    } else {
        raw
    }
}

/// Computes the rotation phase of a ring at game time `t`.
pub fn ring_phase(t: u64, ring: u32, sub_ring: u32, seed: u32) -> (r: u64)
    ensures
        r == ring_phase_spec(t, ring, sub_ring, seed),
        r < UNIT,
{
    let spd = ring_speed(ring, sub_ring, seed);
    proof {
        reveal(phase_raw_spec);
        vstd::arithmetic::mul::lemma_mul_upper_bound(
            t as int,
            0xffff_ffff_ffff_ffff,
            spd.magnitude as int,
            1_800_000,
        );
        vstd::arithmetic::mul::lemma_mul_upper_bound(
            (t as int) * (spd.magnitude as int),
            0xffff_ffff_ffff_ffff * 1_800_000int,
            ring as int + 1,
            0x1_0000_0000,
        );
    }
    let prod: u128 = (t as u128) * (spd.magnitude as u128) * ((ring as u128) + 1);
    let raw: u64 = ((prod / (UNIT as u128)) % (UNIT as u128)) as u64;
    if spd.reversed {
        if raw == 0 {
            0
        } else {
            UNIT - raw
        }
    } else {
        raw
    }
}

} // verus!
