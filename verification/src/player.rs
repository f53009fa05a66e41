//! The player state machine and jump resolver.
//!
//! `PlayerState` is the whole authoritative simulation state; it is mutated
//! exactly once per tick by `tick`, which advances the game clock (applying
//! the death deadline), handles pause / resume / restart / descend intents,
//! resolves a jump intent against the candidate gaps of the next ring out,
//! advances the animation and cooldown timers, and returns the audio cues
//! the tick produced.  The entire transition is specified by `tick_spec`, a
//! pure function of the old state, the elapsed wall time and the inputs.

use vstd::prelude::*;

verus! {

use crate::{
    COOLDOWN_RATE,
    DEAD_SPEED_MICRO,
    DEATH_FACTOR,
    GAME_SPEED_MICRO,
    RING_SEED,
    STARTING_LEVEL,
    STEP_ANIM_RATE,
    UNIT,
};
use crate::cue::{Cue, hit_cues, hit_cues_spec, miss_cues, miss_cues_spec};
use crate::phase::{wrap_add, wrap_add_spec, wrap_sub, wrap_sub_spec};
use crate::ring_field::{gap_count, gap_count_spec, gap_size, gap_size_spec, ring_phase,
    ring_phase_spec};

/// The complete simulation state of one player.
#[derive(Clone, Copy, PartialEq, Eq, Debug)]
pub struct PlayerState {
    /// The ring the player currently occupies; 0 is nearest the center.
    pub ring: u32,
    /// Which of the current ring's gaps the player occupies.
    pub sub_ring: u32,
    /// Phase in `[0, UNIT)` locating the player inside its ring's rotating
    /// frame.
    pub offset: u64,
    /// Monotonic game-time accumulator in micro-seconds, driving all ring
    /// rotation; frozen while paused, slowed once dead.
    pub clock: u64,
    /// Landing-animation timer in `[0, UNIT]`; reset to 0 on a successful
    /// jump.
    pub step_anim: u64,
    /// Input-debounce timer in `[0, UNIT]`; a jump is accepted only at
    /// `UNIT`, and a miss resets it to 0.
    pub move_cooldown: u64,
    /// Cumulative failed jumps.
    pub miss_count: u32,
    /// Set when the game clock overtakes the per-ring deadline; cleared
    /// only by restart.
    pub dead: bool,
    /// Set and cleared by the pause input; suspends the clock and jumps.
    pub paused: bool,
    /// Cosmetic color selection in `[0, 3]`; not consumed by the
    /// simulation logic.
    pub color: u32,
}

/// The boolean intents of one tick, each true on an input edge.
#[derive(Clone, Copy, Debug)]
pub struct Inputs {
    /// Jump outward; while paused this resumes instead.
    pub jump: bool,
    /// Toggle the paused state.
    pub pause_toggle: bool,
    /// While dead or paused, reset the whole state to its initial value.
    pub restart: bool,
    /// Debug intent: step one ring inward.
    pub descend: bool,
    /// Cosmetic color selection, 0 through 3.
    pub color_select: Option<u32>,
}

/// The state a game starts in, and returns to on restart: everything at its
/// default except the starting ring.
pub open spec fn initial_state() -> PlayerState {
    PlayerState {
        ring: STARTING_LEVEL,
        sub_ring: 0,
        offset: 0,
        clock: 0,
        step_anim: 0,
        move_cooldown: 0,
        miss_count: 0,
        dead: false,
        paused: false,
        color: 0,
    }
}

/// `a + b` saturated at the top of the 64-bit range.
pub open spec fn sat_add64(a: int, b: int) -> int {
    if a + b > u64::MAX {
        u64::MAX as int
    } else {
        a + b
    }
}

/// The next ring out, saturated at the top of the 32-bit range.
pub open spec fn sat_ring_next(r: u32) -> u32 {
    if r < u32::MAX {
        (r + 1) as u32
    } else {
        r
    }
}

/// A counter incremented by one, saturated at the top of the 32-bit range.
pub open spec fn sat_inc32(c: u32) -> u32 {
    if c < u32::MAX {
        (c + 1) as u32
    } else {
        c
    }
}

/// How much game time `delta` micro-seconds of wall time are worth at the
/// given clock rate.
/// Opaque: ticks reason through the contract of `step_clock`.
#[verifier::opaque]
pub open spec fn clock_inc_spec(delta: u64, rate: u64) -> int {
    (delta as int) * (rate as int) / (UNIT as int)
}

/// The death deadline: the game clock has overtaken the pace the current
/// ring demands.
pub open spec fn past_deadline_spec(s: PlayerState) -> bool {
    (s.clock as int) * (DEATH_FACTOR as int) > (s.ring as int + 1) * (UNIT as int)
}

/// Clock advance for one tick: frozen while paused; past the deadline the
/// player is marked dead and the clock settles at the reduced rate.
pub open spec fn step_clock_spec(s: PlayerState, delta: u64) -> PlayerState {
    if s.paused {
        s
    } else if past_deadline_spec(s) {
        PlayerState {
            clock: sat_add64(s.clock as int, clock_inc_spec(delta, DEAD_SPEED_MICRO)) as u64,
            dead: true,
            ..s
        }
    } else {
        PlayerState {
            clock: sat_add64(s.clock as int, clock_inc_spec(delta, GAME_SPEED_MICRO)) as u64,
            ..s
        }
    }
}

/// The paused flag after the tick's inputs: a jump intent while paused
/// resumes, then the dedicated pause input toggles.
pub open spec fn pause_after_spec(paused: bool, i: Inputs) -> bool {
    let resumed = if i.jump && paused {
        false
    } else {
        paused
    };
    if i.pause_toggle {
        !resumed
    } else {
        resumed
    }
}

/// The descend intent: one ring inward, only while actively playing.
pub open spec fn descend_spec(s: PlayerState, i: Inputs) -> PlayerState {
    if i.descend && !s.paused && !s.dead {
        PlayerState {
            ring: if s.ring > 0 {
                (s.ring - 1) as u32
            } else {
                0
            },
            ..s
        }
    } else {
        s
    }
}

/// A normalized timer after `delta` micro-seconds of wall time at `rate`
/// units per second, clamped at full.
/// Opaque: ticks reason through the contract of `advance_timers` and
/// `lemma_timer_after_bounds`.
#[verifier::opaque]
pub open spec fn timer_after_spec(x: u64, delta: u64, rate: u64) -> int {
    let v = x as int + (delta as int) * (rate as int);
    if v > UNIT {
        UNIT as int
    } else {
        v
    }
}

/// A clamped timer never leaves `[0, UNIT]`.
pub proof fn lemma_timer_after_bounds(x: u64, delta: u64, rate: u64)
    ensures
        0 <= timer_after_spec(x, delta, rate) <= UNIT,
{
    reveal(timer_after_spec);
    vstd::arithmetic::mul::lemma_mul_nonnegative(delta as int, rate as int);
}

/// Both timers advanced toward full at their fixed rates.
pub open spec fn timers_spec(s: PlayerState, delta: u64) -> PlayerState {
    PlayerState {
        step_anim: timer_after_spec(s.step_anim, delta, STEP_ANIM_RATE) as u64,
        move_cooldown: timer_after_spec(s.move_cooldown, delta, COOLDOWN_RATE) as u64,
        ..s
    }
}

/// The cosmetic color intent applied.
pub open spec fn color_spec(s: PlayerState, i: Inputs) -> PlayerState {
    match i.color_select {
        Option::Some(c) => PlayerState { color: c, ..s },
        Option::None => s,
    }
}

/// The player's depth relative to the starting ring; negative below it.
pub open spec fn relative_level_spec(s: PlayerState) -> int {
    s.ring as int - STARTING_LEVEL as int
}

/// The phase of the player's current gap on its own ring: the ring's
/// rotation phase plus the player's offset inside the rotating frame.
pub open spec fn this_phase_spec(s: PlayerState) -> int {
    wrap_add_spec(ring_phase_spec(s.clock, s.ring, s.sub_ring, RING_SEED), s.offset as int)
}

/// How far, in wrapped phase, candidate gap `k` of the next ring trails the
/// player's current gap.
pub open spec fn within_spec(s: PlayerState, k: u32) -> int {
    wrap_sub_spec(
        this_phase_spec(s),
        ring_phase_spec(s.clock, sat_ring_next(s.ring), k, RING_SEED),
    )
}

/// Whether candidate gap `k` of the next ring is hit: the wrapped distance
/// falls strictly inside the candidate's gap size.
pub open spec fn hit_at_spec(s: PlayerState, k: u32) -> bool {
    within_spec(s, k) < gap_size_spec(sat_ring_next(s.ring), k, RING_SEED)
}

/// The first candidate at or after `k` that is hit, if any; candidates are
/// tried in index order.
pub open spec fn first_hit_from_spec(s: PlayerState, k: u32) -> Option<u32>
    decreases gap_count_spec(s.ring) - k,
{
    if k as int >= gap_count_spec(s.ring) {
        Option::None
    } else if hit_at_spec(s, k) {
        Option::Some(k)
    } else {
        first_hit_from_spec(s, (k + 1) as u32)
    }
}

/// The candidate a jump from `s` lands in, if any.
pub open spec fn first_hit_spec(s: PlayerState) -> Option<u32> {
    first_hit_from_spec(s, 0)
}

/// The outcome of an accepted jump: on a hit the player adopts the first
/// hit candidate (one ring out, offset inside the gap, landing animation
/// restarted) and a hit cue list is emitted for the level the jump left;
/// on a miss the cooldown restarts, the miss count grows and the two miss
/// cues are emitted.
pub open spec fn resolve_spec(s: PlayerState) -> (PlayerState, Seq<Cue>) {
    match first_hit_spec(s) {
        Option::Some(k) => (
            PlayerState {
                ring: sat_ring_next(s.ring),
                sub_ring: k,
                offset: within_spec(s, k) as u64,
                step_anim: 0,
                ..s
            },
            hit_cues_spec(relative_level_spec(s)),
        ),
        Option::None => (
            PlayerState { move_cooldown: 0, miss_count: sat_inc32(s.miss_count), ..s },
            miss_cues_spec(),
        ),
    }
}

/// The whole transition of one simulation tick, as a pure function: restart
/// (while dead or paused) resets everything; otherwise the clock advances,
/// pause and descend intents apply, an accepted jump is resolved, and the
/// timers advance.  The second component is the tick's cue list.
pub open spec fn tick_spec(s: PlayerState, delta: u64, i: Inputs) -> (PlayerState, Seq<Cue>) {
    if i.restart && (s.dead || s.paused) {
        (initial_state(), Seq::<Cue>::empty())
    } else {
        let s1 = step_clock_spec(s, delta);
        let resumed = i.jump && s1.paused;
        let s2 = PlayerState { paused: pause_after_spec(s1.paused, i), ..s1 };
        let s3 = descend_spec(s2, i);
        let jumping = i.jump && !resumed && !s3.paused && !s3.dead && s3.move_cooldown == UNIT;
        let stepped = if jumping {
            resolve_spec(s3)
        } else {
            (s3, Seq::<Cue>::empty())
        };
        (color_spec(timers_spec(stepped.0, delta), i), stepped.1)
    }
}

/// If candidates `0 .. k` all miss and `k` hits, then `k` is the first hit.
pub proof fn lemma_first_hit_found(s: PlayerState, i: u32, k: u32)
    requires
        i <= k,
        (k as int) < gap_count_spec(s.ring),
        hit_at_spec(s, k),
        forall|j: u32| i <= j < k ==> !hit_at_spec(s, j),
    ensures
        first_hit_from_spec(s, i) == Option::Some(k),
    decreases k - i,
{
    if i < k {
        lemma_first_hit_found(s, (i + 1) as u32, k);
    }
}

/// If every candidate misses, there is no first hit.
pub proof fn lemma_first_hit_none(s: PlayerState, i: u32)
    requires
        forall|j: u32| i <= j && (j as int) < gap_count_spec(s.ring) ==> !hit_at_spec(s, j),
    ensures
        first_hit_from_spec(s, i) == Option::None::<u32>,
    decreases gap_count_spec(s.ring) - i,
{
    if (i as int) < gap_count_spec(s.ring) {
        lemma_first_hit_none(s, (i + 1) as u32);
    }
}

impl PlayerState {
    /// The state's internal invariant: the offset is a phase, the timers
    /// are normalized, and the color is one of the four selectable ones.
    pub open spec fn wf(self) -> bool {
        &&& self.offset < UNIT
        &&& self.step_anim <= UNIT
        &&& self.move_cooldown <= UNIT
        &&& self.color <= 3
    }

    /// A fresh game: all defaults except the starting ring.
    pub fn new() -> (s: PlayerState)
        ensures
            s == initial_state(),
            s.wf(),
    {
        PlayerState {
            ring: STARTING_LEVEL,
            sub_ring: 0,
            offset: 0,
            clock: 0,
            step_anim: 0,
            move_cooldown: 0,
            miss_count: 0,
            dead: false,
            paused: false,
            color: 0,
        }
    }

    /// Advances the game clock by `delta` micro-seconds of wall time,
    /// marking the player dead first if the deadline has passed.
    fn step_clock(&mut self, delta: u64)
        ensures
            *final(self) == step_clock_spec(*old(self), delta),
    {
        if !self.paused {
            proof {
                vstd::arithmetic::mul::lemma_mul_upper_bound(
                    self.clock as int,
                    0xffff_ffff_ffff_ffff,
                    DEATH_FACTOR as int,
                    7,
                );
                vstd::arithmetic::mul::lemma_mul_upper_bound(
                    self.ring as int + 1,
                    0x1_0000_0000,
                    UNIT as int,
                    1_000_000,
                );
            }
            let past: bool = (self.clock as u128) * (DEATH_FACTOR as u128)
                > ((self.ring as u128) + 1) * (UNIT as u128);
            let rate: u64 = if past {
                DEAD_SPEED_MICRO
            } else {
                GAME_SPEED_MICRO
            };
            if past {
                self.dead = true;
            }
            proof {
                reveal(clock_inc_spec);
                vstd::arithmetic::mul::lemma_mul_upper_bound(
                    delta as int,
                    0xffff_ffff_ffff_ffff,
                    rate as int,
                    80_000,
                );
                assert((delta as int) * (rate as int) <= (delta as int) * (UNIT as int))
                    by (nonlinear_arith)
                    requires
                        rate <= UNIT,
                        delta >= 0,
                ;
                vstd::arithmetic::div_mod::lemma_div_is_ordered(
                    (delta as int) * (rate as int),
                    (delta as int) * (UNIT as int),
                    UNIT as int,
                );
                vstd::arithmetic::div_mod::lemma_div_by_multiple(delta as int, UNIT as int);
            }
            let inc: u64 = ((delta as u128) * (rate as u128) / (UNIT as u128)) as u64;
            self.clock = if self.clock <= u64::MAX - inc {
                self.clock + inc
            } else {
                u64::MAX
            };
        }
    }

    /// Advances both normalized timers toward full.
    fn advance_timers(&mut self, delta: u64)
        requires
            old(self).step_anim <= UNIT,
            old(self).move_cooldown <= UNIT,
        ensures
            *final(self) == timers_spec(*old(self), delta),
            final(self).step_anim <= UNIT,
            final(self).move_cooldown <= UNIT,
    {
        self.step_anim = advance_timer(self.step_anim, delta, STEP_ANIM_RATE);
        self.move_cooldown = advance_timer(self.move_cooldown, delta, COOLDOWN_RATE);
    }

    /// Resolves an accepted jump: tries each candidate gap of the next
    /// ring in index order, adopting the first one whose wrapped distance
    /// falls inside its gap, and records a miss otherwise.
    #[verifier::loop_isolation(false)]
    pub fn resolve_jump(&mut self) -> (cues: Vec<Cue>)
        requires
            old(self).wf(),
        ensures
            *final(self) == resolve_spec(*old(self)).0,
            cues@ == resolve_spec(*old(self)).1,
            final(self).wf(),
    {
        let ghost s0 = *self;
        let rel: i64 = (self.ring as i64) - (STARTING_LEVEL as i64);
        let count: u32 = gap_count(self.ring);
        let next_ring: u32 = if self.ring < u32::MAX {
            self.ring + 1
        } else {
            u32::MAX
        };
        let this_start: u64 = ring_phase(self.clock, self.ring, self.sub_ring, RING_SEED);
        let this_p: u64 = wrap_add(this_start, self.offset);
        let mut k: u32 = 0;
        while k < count
            invariant
                *self == s0,
                s0.wf(),
                count == gap_count_spec(s0.ring),
                next_ring == sat_ring_next(s0.ring),
                this_p == this_phase_spec(s0),
                this_p < UNIT,
                k <= count,
                rel == relative_level_spec(s0),
                -0x1_0000_0000 <= rel <= 0x1_0000_0000,
                forall|j: u32| j < k ==> !hit_at_spec(s0, j),
            decreases count - k,
        {
            let next_p: u64 = ring_phase(self.clock, next_ring, k, RING_SEED);
            let size: u64 = gap_size(next_ring, k, RING_SEED);
            let within: u64 = wrap_sub(this_p, next_p);
            if within < size {
                proof {
                    lemma_first_hit_found(s0, 0, k);
                }
                self.offset = within;
                self.ring = next_ring;
                self.sub_ring = k;
                self.step_anim = 0;
                return hit_cues(rel);
            }
            k = k + 1;
        }
        proof {
            lemma_first_hit_none(s0, 0);
        }
        self.move_cooldown = 0;
        self.miss_count = if self.miss_count < u32::MAX {
            self.miss_count + 1
        } else {
            u32::MAX
        };
        miss_cues()
    }

    /// One full simulation tick: the only mutation the state undergoes.
    /// Returns the audio cues the tick produced (empty on most ticks).
    pub fn tick(&mut self, delta: u64, inputs: Inputs) -> (cues: Vec<Cue>)
        requires
            old(self).wf(),
            inputs.color_select matches Some(c) ==> c <= 3,
        ensures
            *final(self) == tick_spec(*old(self), delta, inputs).0,
            cues@ == tick_spec(*old(self), delta, inputs).1,
            final(self).wf(),
    {
        let ghost s0 = *self;
        if inputs.restart && (self.dead || self.paused) {
            *self = PlayerState::new();
            let cues: Vec<Cue> = Vec::new();
            proof {
                assert(cues@ =~= Seq::<Cue>::empty());
            }
            return cues;
        }
        self.step_clock(delta);
        let resumed: bool = inputs.jump && self.paused;
        if resumed {
            self.paused = false;
        }
        if inputs.pause_toggle {
            self.paused = !self.paused;
        }
        if inputs.descend && !self.paused && !self.dead {
            self.ring = if self.ring > 0 {
                self.ring - 1
            } else {
                0
            };
        }
        let mut cues: Vec<Cue> = Vec::new();
        let jumping: bool = inputs.jump && !resumed && !self.paused && !self.dead
            && self.move_cooldown == UNIT;
        if jumping {
            cues = self.resolve_jump();
        }
        self.advance_timers(delta);
        if let Some(c) = inputs.color_select {
            self.color = c;
        }
        proof {
            if !jumping {
                assert(cues@ =~= Seq::<Cue>::empty());
            }
        }
        cues
    }
}

/// One normalized timer advanced toward full at `rate` units per second
/// and clamped there.
fn advance_timer(x: u64, delta: u64, rate: u64) -> (r: u64)
    requires
        x <= UNIT,
        1 <= rate <= 16,
    ensures
        r == timer_after_spec(x, delta, rate),
        r <= UNIT,
{
    proof {
        reveal(timer_after_spec);
    }
    if delta >= UNIT {
        proof {
            assert((delta as int) * (rate as int) >= UNIT) by (nonlinear_arith)
                requires
                    delta >= UNIT,
                    rate >= 1,
            ;
        }
        UNIT
    } else {
        proof {
            vstd::arithmetic::mul::lemma_mul_upper_bound(
                delta as int,
                999_999,
                rate as int,
                16,
            );
        }
        let inc: u64 = delta * rate;
        let v: u64 = x + inc;
        if v > UNIT {
            UNIT
        } else {
            v
        }
    }
}

} // verus!
