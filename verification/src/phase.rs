//! Wrapped fixed-point phase arithmetic.
//!
//! A phase is a fraction of a full revolution held as an integer in
//! `[0, UNIT)`.  Phases are cyclic, so every sum and difference must be
//! reduced modulo `UNIT`; a naive subtraction without the wrap would be a
//! correctness bug.  In the specifications the wrap is the Euclidean
//! remainder, which always lands in `[0, UNIT)` even for negative inputs.

use vstd::prelude::*;

verus! {

use crate::UNIT;

/// The wrapped sum of two phases.
pub open spec fn wrap_add_spec(a: int, b: int) -> int {
    (a + b) % (UNIT as int)
}

/// The wrapped difference `a - b` of two phases, shifted by one full turn
/// so the operand of the remainder is never negative.
pub open spec fn wrap_sub_spec(a: int, b: int) -> int {
    (a + UNIT - b) % (UNIT as int)
}

/// A signed micro-phase mapped into `[0, UNIT)`: the Euclidean remainder,
/// so a negative input lands `UNIT` above its truncated remainder
/// (for example, -0.3 of a turn wraps to 0.7 of a turn).
pub open spec fn wrap_signed_spec(x: int) -> int {
    x % (UNIT as int)
}

/// Adds two phases and wraps the sum back into `[0, UNIT)`.
pub fn wrap_add(a: u64, b: u64) -> (r: u64)
    requires
        a < UNIT,
        b < UNIT,
    ensures
        r == wrap_add_spec(a as int, b as int),
        r < UNIT,
{
    let s: u64 = a + b;
    if s >= UNIT {
        s - UNIT
    } else {
        s
    }
}

/// Subtracts phase `b` from phase `a` and wraps the difference back into
/// `[0, UNIT)`.
pub fn wrap_sub(a: u64, b: u64) -> (r: u64)
    requires
        a < UNIT,
        b < UNIT,
    ensures
        r == wrap_sub_spec(a as int, b as int),
        r < UNIT,
{
    let s: u64 = a + UNIT - b;
    if s >= UNIT {
        s - UNIT
    } else {
        s
    }
}

/// Maps an arbitrary signed micro-phase into `[0, UNIT)`.
pub fn wrap_phase(x: i64) -> (r: u64)
    requires
        x > i64::MIN,
    ensures
        r == wrap_signed_spec(x as int),
        r < UNIT,
{
    if x >= 0 {
        (x as u64) % UNIT
    } else {
        let m: u64 = ((-x) as u64) % UNIT;
        if m == 0 {
            0
        } else {
            UNIT - m
        }
    }
}

} // verus!
