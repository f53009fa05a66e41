use sol_rings::UNIT;
use sol_rings::cue::CueSound;
use sol_rings::player::{Inputs, PlayerState};

fn quiet() -> Inputs {
    Inputs { jump: false, pause_toggle: false, restart: false, descend: false, color_select: None }
}

fn ready_at(offset: u64) -> PlayerState {
    // At game time zero every ring sits at phase zero, so the wrapped
    // distance to each candidate gap equals the player's own offset, and
    // the candidate gap sizes on ring 11 are 110_784 and 67_078.
    PlayerState { offset, move_cooldown: UNIT, step_anim: UNIT, ..PlayerState::new() }
}

#[test]
fn jump_hit_adopts_first_candidate() {
    let mut s = ready_at(10_000);
    let cues = s.resolve_jump();
    assert_eq!(s.ring, 11);
    assert_eq!(s.sub_ring, 0);
    assert_eq!(s.offset, 10_000); // the wrapped distance becomes the offset
    assert_eq!(s.step_anim, 0); // landing animation restarts
    assert_eq!(s.move_cooldown, UNIT); // a hit does not reset the cooldown
    assert_eq!(s.miss_count, 0);
    // Relative level 0: a single lead tone, interval 0, an octave down.
    assert_eq!(cues.len(), 1);
    assert_eq!(cues[0].sound, CueSound::Tone);
    assert_eq!(cues[0].semitones, 0);
    assert_eq!(cues[0].rate_milli, 500);
    assert_eq!(cues[0].gain_milli, 398);
    assert!(!cues[0].reversed);
}

#[test]
fn jump_hit_can_take_second_candidate() {
    // At game time 452_000 the first candidate's gap is out of reach
    // (wrapped distance 713_799 against gap size 110_784) while the second
    // one is open (65_448 against 67_078): the resolver lands in sub-ring 1
    // and the wrapped distance becomes the new offset.
    let mut s = PlayerState {
        clock: 452_000,
        move_cooldown: UNIT,
        step_anim: UNIT,
        ..PlayerState::new()
    };
    s.resolve_jump();
    assert_eq!(s.ring, 11);
    assert_eq!(s.sub_ring, 1);
    assert_eq!(s.offset, 65_448);
}

#[test]
fn jump_miss_counts_and_resets_cooldown() {
    let mut s = ready_at(500_000);
    let cues = s.resolve_jump();
    assert_eq!(s.ring, 10); // unchanged
    assert_eq!(s.sub_ring, 0);
    assert_eq!(s.offset, 500_000); // unchanged
    assert_eq!(s.move_cooldown, 0); // forced recovery wait
    assert_eq!(s.miss_count, 1); // exactly one more miss
    // Two miss cues at the two fixed rates.
    assert_eq!(cues.len(), 2);
    assert_eq!(cues[0].sound, CueSound::MissTone);
    assert_eq!(cues[0].rate_milli, 900);
    assert_eq!(cues[1].sound, CueSound::MissTone);
    assert_eq!(cues[1].rate_milli, 800);
    assert_eq!(cues[0].gain_milli, 600);
    assert_eq!(cues[1].gain_milli, 600);
}

#[test]
fn tick_with_jump_hits_through_the_gap() {
    let mut s = ready_at(10_000);
    let cues = s.tick(0, Inputs { jump: true, ..quiet() });
    assert_eq!(s.ring, 11);
    assert_eq!(s.offset, 10_000);
    assert_eq!(s.step_anim, 0);
    assert_eq!(cues.len(), 1);
}

#[test]
fn tick_with_jump_misses_everywhere() {
    let mut s = ready_at(500_000);
    let cues = s.tick(0, Inputs { jump: true, ..quiet() });
    assert_eq!(s.ring, 10);
    assert_eq!(s.move_cooldown, 0);
    assert_eq!(s.miss_count, 1);
    assert_eq!(cues.len(), 2);
}

#[test]
fn consecutive_misses_accumulate() {
    let mut s = ready_at(500_000);
    s.resolve_jump();
    s.move_cooldown = UNIT;
    s.resolve_jump();
    assert_eq!(s.miss_count, 2);
    assert_eq!(s.ring, 10);
}

#[test]
fn climb_several_rings() {
    // With the clock at zero every ring is at phase zero, so a player at
    // offset zero falls into the first gap every time and the offset stays
    // inside each adopted gap.
    let mut s = ready_at(0);
    for expected in 11u32..=15 {
        let cues = s.tick(0, Inputs { jump: true, ..quiet() });
        assert_eq!(s.ring, expected);
        assert!(!cues.is_empty());
        assert!(s.offset < UNIT);
    }
    assert_eq!(s.miss_count, 0);
}
