use sol_rings::UNIT;
use sol_rings::player::{Inputs, PlayerState};

fn quiet() -> Inputs {
    Inputs { jump: false, pause_toggle: false, restart: false, descend: false, color_select: None }
}

fn jump() -> Inputs {
    Inputs { jump: true, ..quiet() }
}

#[test]
fn initial_state_defaults() {
    let s = PlayerState::new();
    assert_eq!(s.ring, 10);
    assert_eq!(s.sub_ring, 0);
    assert_eq!(s.offset, 0);
    assert_eq!(s.clock, 0);
    assert_eq!(s.step_anim, 0);
    assert_eq!(s.move_cooldown, 0);
    assert_eq!(s.miss_count, 0);
    assert!(!s.dead && !s.paused);
    assert_eq!(s.color, 0);
}

#[test]
fn clock_advances_at_game_speed() {
    let mut s = PlayerState::new();
    let cues = s.tick(1_000_000, quiet());
    // One second of wall time is worth 0.08 game seconds.
    assert_eq!(s.clock, 80_000);
    assert!(cues.is_empty());
    s.tick(500_000, quiet());
    assert_eq!(s.clock, 120_000);
}

#[test]
fn timers_fill_and_clamp() {
    let mut s = PlayerState::new();
    s.tick(250_000, quiet());
    // The landing animation fills 16 times faster than the cooldown.
    assert_eq!(s.step_anim, UNIT);
    assert_eq!(s.move_cooldown, 250_000);
    s.tick(2_000_000, quiet());
    assert_eq!(s.step_anim, UNIT);
    assert_eq!(s.move_cooldown, UNIT);
}

#[test]
fn pause_freezes_clock() {
    let mut s = PlayerState::new();
    s.tick(500_000, Inputs { pause_toggle: true, ..quiet() });
    // The clock step precedes the pause intent, so this tick still counts.
    assert_eq!(s.clock, 40_000);
    assert!(s.paused);
    s.tick(250_000, quiet());
    assert_eq!(s.clock, 40_000);
    // Timers keep filling while paused.
    assert_eq!(s.move_cooldown, 750_000);
}

#[test]
fn pause_toggle_resumes() {
    let mut s = PlayerState::new();
    s.tick(0, Inputs { pause_toggle: true, ..quiet() });
    assert!(s.paused);
    s.tick(0, Inputs { pause_toggle: true, ..quiet() });
    assert!(!s.paused);
}

#[test]
fn jump_resumes_from_pause_without_jumping() {
    let mut s = PlayerState::new();
    s.move_cooldown = UNIT;
    s.tick(0, Inputs { pause_toggle: true, ..quiet() });
    assert!(s.paused);
    let cues = s.tick(0, jump());
    // The jump edge is consumed by the resume; nothing is resolved.
    assert!(!s.paused);
    assert_eq!(s.ring, 10);
    assert_eq!(s.miss_count, 0);
    assert!(cues.is_empty());
}

#[test]
fn jump_gated_by_cooldown() {
    // A fresh state has an empty cooldown timer: a jump input must change
    // nothing at all.
    let mut with_jump = PlayerState::new();
    let mut without = PlayerState::new();
    assert!(with_jump.move_cooldown < UNIT);
    let cues = with_jump.tick(1_000, jump());
    without.tick(1_000, quiet());
    assert_eq!(with_jump, without);
    assert!(cues.is_empty());
    assert_eq!(with_jump.miss_count, 0);
}

#[test]
fn death_deadline_trips_exactly() {
    // At ring 10 the deadline is clock * 7 > 11 seconds.
    let mut s = PlayerState::new();
    s.clock = 1_571_428; // 7 * clock = 10_999_996: still alive
    s.tick(1_000, quiet());
    assert!(!s.dead);
    assert_eq!(s.clock, 1_571_508); // advanced at the live rate

    let mut s = PlayerState::new();
    s.clock = 1_571_429; // 7 * clock = 11_000_003: past the deadline
    s.tick(1_000, quiet());
    assert!(s.dead);
    // The clock settles at the reduced rate: 1000 * 0.024 = 24.
    assert_eq!(s.clock, 1_571_453);
}

#[test]
fn death_persists_until_restart() {
    let mut s = PlayerState::new();
    s.clock = 2_000_000;
    s.tick(1_000, quiet());
    assert!(s.dead);
    for _ in 0..5 {
        s.tick(1_000, jump());
        assert!(s.dead);
    }
    s.tick(1_000, Inputs { restart: true, ..quiet() });
    assert!(!s.dead);
    assert_eq!(s, PlayerState::new());
}

#[test]
fn dead_player_cannot_jump() {
    let mut s = PlayerState::new();
    s.clock = 2_000_000;
    s.move_cooldown = UNIT;
    s.tick(0, quiet());
    assert!(s.dead);
    s.move_cooldown = UNIT;
    let cues = s.tick(0, jump());
    assert_eq!(s.ring, 10);
    assert_eq!(s.miss_count, 0);
    assert!(cues.is_empty());
}

#[test]
fn restart_resets_from_paused() {
    let mut s = PlayerState::new();
    s.tick(500_000, Inputs { pause_toggle: true, ..quiet() });
    s.miss_count = 3;
    s.color = 2;
    s.tick(0, Inputs { restart: true, ..quiet() });
    assert_eq!(s, PlayerState::new());
}

#[test]
fn restart_ignored_while_active() {
    let mut s = PlayerState::new();
    s.tick(1_000_000, Inputs { restart: true, ..quiet() });
    assert_eq!(s.clock, 80_000); // the tick ran normally
}

#[test]
fn descend_steps_inward_only_while_active() {
    let mut s = PlayerState::new();
    s.tick(0, Inputs { descend: true, ..quiet() });
    assert_eq!(s.ring, 9);
    s.tick(0, Inputs { descend: true, pause_toggle: true, ..quiet() });
    assert_eq!(s.ring, 9); // the pause lands before the descend intent
    assert!(s.paused);
    s.tick(0, Inputs { descend: true, ..quiet() });
    assert_eq!(s.ring, 9); // paused: descend suppressed
}

#[test]
fn descend_saturates_at_center() {
    let mut s = PlayerState::new();
    s.ring = 0;
    s.tick(0, Inputs { descend: true, ..quiet() });
    assert_eq!(s.ring, 0);
}

#[test]
fn color_select_is_cosmetic() {
    let mut s = PlayerState::new();
    let mut plain = PlayerState::new();
    s.tick(1_000, Inputs { color_select: Some(3), ..quiet() });
    plain.tick(1_000, quiet());
    assert_eq!(s.color, 3);
    assert_eq!(PlayerState { color: 0, ..s }, plain);
}

#[test]
fn pause_beats_jump_in_one_tick() {
    // Pause and jump pressed together while active: the pause lands first,
    // so nothing is resolved.
    let mut s = PlayerState::new();
    s.move_cooldown = UNIT;
    let cues = s.tick(0, Inputs { jump: true, pause_toggle: true, ..quiet() });
    assert!(s.paused);
    assert_eq!(s.ring, 10);
    assert_eq!(s.miss_count, 0);
    assert!(cues.is_empty());
}

#[test]
fn jump_and_toggle_while_paused_repause() {
    // While paused, the jump edge resumes and the toggle pauses again.
    let mut s = PlayerState::new();
    s.tick(0, Inputs { pause_toggle: true, ..quiet() });
    assert!(s.paused);
    s.tick(0, Inputs { jump: true, pause_toggle: true, ..quiet() });
    assert!(s.paused);
}

#[test]
fn miss_count_saturates() {
    let mut s = PlayerState::new();
    s.offset = 500_000; // at game time zero this misses every candidate
    s.move_cooldown = UNIT;
    s.miss_count = u32::MAX;
    s.resolve_jump();
    assert_eq!(s.miss_count, u32::MAX);
    assert_eq!(s.move_cooldown, 0);
}

#[test]
fn clock_saturates_at_the_top() {
    let mut s = PlayerState::new();
    s.clock = u64::MAX - 10;
    s.tick(1_000_000, quiet());
    assert_eq!(s.clock, u64::MAX);
    assert!(s.dead);
}
