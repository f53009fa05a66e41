//! The simulation's global laws, each proved once and for all over the
//! tick transition `tick_spec` (or over the jump resolver `resolve_spec`),
//! for every state, elapsed time and input the library accepts.

use vstd::prelude::*;

verus! {

use crate::{COOLDOWN_RATE, STEP_ANIM_RATE, UNIT};
use crate::cue::{Cue, miss_cues_spec};
use crate::player::{
    Inputs,
    PlayerState,
    clock_inc_spec,
    descend_spec,
    first_hit_spec,
    hit_at_spec,
    initial_state,
    lemma_first_hit_none,
    lemma_timer_after_bounds,
    pause_after_spec,
    past_deadline_spec,
    resolve_spec,
    step_clock_spec,
    tick_spec,
};
use crate::ring_field::{RingSpeed, gap_count_spec, gap_size_spec, speed_mag_spec,
    speed_reversed_spec};

/// Determinism: the ring field is a pure function of `(ring, sub_ring,
/// seed)`.  Any two values meeting the contract of `ring_speed`, and any
/// two meeting the contract of `gap_size`, for the same arguments, are
/// identical — so repeated calls agree bit for bit, across runs and
/// platforms.
pub proof fn lemma_ring_field_deterministic(
    ring: u32,
    sub_ring: u32,
    seed: u32,
    r1: RingSpeed,
    r2: RingSpeed,
    g1: u64,
    g2: u64,
)
    requires
        r1.magnitude == speed_mag_spec(ring, sub_ring, seed),
        r1.reversed == speed_reversed_spec(ring),
        r2.magnitude == speed_mag_spec(ring, sub_ring, seed),
        r2.reversed == speed_reversed_spec(ring),
        g1 == gap_size_spec(ring, sub_ring, seed),
        g2 == gap_size_spec(ring, sub_ring, seed),
    ensures
        r1 == r2,
        g1 == g2,
{
}

/// Phase containment: a well-formed state stays well-formed after any
/// tick, whatever the elapsed time and inputs; in particular the offset
/// stays a phase in `[0, UNIT)` and the timers stay in `[0, UNIT]`.
pub proof fn lemma_tick_preserves_wf(s: PlayerState, delta: u64, i: Inputs)
    requires
        s.wf(),
        i.color_select matches Some(c) ==> c <= 3,
    ensures
        tick_spec(s, delta, i).0.wf(),
{
    if !(i.restart && (s.dead || s.paused)) {
        let s1 = step_clock_spec(s, delta);
        let s2 = PlayerState { paused: pause_after_spec(s1.paused, i), ..s1 };
        let s3 = descend_spec(s2, i);
        let resumed = i.jump && s1.paused;
        let jumping = i.jump && !resumed && !s3.paused && !s3.dead && s3.move_cooldown == UNIT;
        let s4 = if jumping {
            resolve_spec(s3).0
        } else {
            s3
        };
        lemma_timer_after_bounds(s4.step_anim, delta, STEP_ANIM_RATE);
        lemma_timer_after_bounds(s4.move_cooldown, delta, COOLDOWN_RATE);
    }
}

/// The game clock is monotonic: any tick that does not reset the game
/// leaves the clock at or above its old value (frozen while paused,
/// advancing otherwise).
pub proof fn lemma_clock_monotonic(s: PlayerState, delta: u64, i: Inputs)
    requires
        !(i.restart && (s.dead || s.paused)),
    ensures
        tick_spec(s, delta, i).0.clock >= s.clock,
{
    reveal(clock_inc_spec);
    vstd::arithmetic::mul::lemma_mul_nonnegative(delta as int, crate::DEAD_SPEED_MICRO as int);
    vstd::arithmetic::mul::lemma_mul_nonnegative(delta as int, crate::GAME_SPEED_MICRO as int);
    vstd::arithmetic::div_mod::lemma_div_pos_is_pos(
        (delta as int) * (crate::DEAD_SPEED_MICRO as int),
        UNIT as int,
    );
    vstd::arithmetic::div_mod::lemma_div_pos_is_pos(
        (delta as int) * (crate::GAME_SPEED_MICRO as int),
        UNIT as int,
    );
}

/// Monotonic progression: without a descend or restart input the ring
/// index never decreases across a tick.
pub proof fn lemma_ring_monotonic(s: PlayerState, delta: u64, i: Inputs)
    requires
        !i.descend,
        !i.restart,
    ensures
        tick_spec(s, delta, i).0.ring >= s.ring,
{
}

/// Monotonic progression, the strict half: a successful resolver outcome
/// increases the ring index by exactly one.
pub proof fn lemma_hit_increments_ring(s: PlayerState)
    requires
        first_hit_spec(s) is Some,
        s.ring < u32::MAX,
    ensures
        resolve_spec(s).0.ring == s.ring + 1,
{
}

/// Cooldown gating: while the player is not paused and the cooldown timer
/// has not fully recovered, a jump input changes nothing: the tick ends in
/// the same state, with the same cues, as the tick without it.
pub proof fn lemma_cooldown_gates_jump(s: PlayerState, delta: u64, i: Inputs)
    requires
        !s.paused,
        s.move_cooldown < UNIT,
    ensures
        tick_spec(s, delta, i).0 == tick_spec(s, delta, Inputs { jump: false, ..i }).0,
        tick_spec(s, delta, i).1 == tick_spec(s, delta, Inputs { jump: false, ..i }).1,
{
}

/// Miss accounting: a resolver call where no candidate gap is hit leaves
/// the ring (and the rest of the progression state) unchanged, resets the
/// cooldown timer to zero, counts exactly one more miss, and emits the two
/// miss cues.
pub proof fn lemma_miss_accounting(s: PlayerState)
    requires
        forall|k: u32| (k as int) < gap_count_spec(s.ring) ==> !hit_at_spec(s, k),
        s.miss_count < u32::MAX,
    ensures
        resolve_spec(s).0 == (PlayerState {
            move_cooldown: 0,
            miss_count: (s.miss_count + 1) as u32,
            ..s
        }),
        resolve_spec(s).1 == miss_cues_spec(),
        resolve_spec(s).1.len() == 2,
{
    lemma_first_hit_none(s, 0);
}

/// Death deadline: once the game clock has overtaken the current ring's
/// deadline, a tick taken while not paused marks the player dead (unless a
/// restart input resets the game first).
pub proof fn lemma_death_deadline(s: PlayerState, delta: u64, i: Inputs)
    requires
        !s.paused,
        past_deadline_spec(s),
        !(i.restart && s.dead),
    ensures
        tick_spec(s, delta, i).0.dead,
{
}

/// Death is stable: a dead player stays dead across every tick that does
/// not carry a restart input.
pub proof fn lemma_dead_until_restart(s: PlayerState, delta: u64, i: Inputs)
    requires
        s.dead,
        !i.restart,
    ensures
        tick_spec(s, delta, i).0.dead,
{
}

/// Restart reset: a restart input while dead or paused replaces the whole
/// state with the initial one (starting ring, zero misses, every other
/// field at its default) and emits no cues.
pub proof fn lemma_restart_resets(s: PlayerState, delta: u64, i: Inputs)
    requires
        i.restart,
        s.dead || s.paused,
    ensures
        tick_spec(s, delta, i).0 == initial_state(),
        tick_spec(s, delta, i).1 == Seq::<Cue>::empty(),
{
}

} // verus!
