use puzzle_core::code::{segment_mask, Code, CodeState, FocusChange};
use puzzle_core::fan::Fan;
use puzzle_core::gate::{Gate, GateAnimation};
use puzzle_core::player::PushAccum;
use puzzle_core::ramp::{advance, UNIT};
use puzzle_core::security_camera::SecurityCamera;
use puzzle_core::switch::Switch;

use rand::Rng;

#[test]
fn ramp_stays_in_bounds_for_random_deltas() {
    let mut rng = rand::thread_rng();
    let mut v: u64 = 300_000;
    for _ in 0..10_000 {
        let delta: u64 = rng.gen_range(0..10_000);
        let rate: u64 = rng.gen_range(0..30_000);
        let rising: bool = rng.gen_bool(0.5);
        v = advance(v, delta, rate, rising, 0, UNIT);
        assert!(v <= UNIT);
    }
}

#[test]
fn ramp_saturates_on_huge_delta() {
    assert_eq!(advance(0, u64::MAX, u64::MAX, true, 0, UNIT), UNIT);
    assert_eq!(advance(UNIT, u64::MAX, u64::MAX, false, 0, UNIT), 0);
    assert_eq!(advance(500_000, 0, 2_000, true, 0, UNIT), 500_000);
}

#[test]
fn ramp_moves_exactly() {
    // 2.0 per second for 100 ms from zero: a fifth of the half scale.
    assert_eq!(advance(0, 100, 2_000, true, 0, UNIT), 200_000);
    assert_eq!(advance(200_000, 50, 2_000, false, 0, UNIT), 100_000);
}

#[test]
fn switch_clicks_latch_and_activation_is_monotonic() {
    let mut s = Switch::new();
    assert!(!s.activated());
    // Touching without the action button does nothing.
    s.tick(true, false, 100);
    assert!(!s.clicked && s.timer == 0);
    // The click latches and starts the animation exactly once.
    let started = s.tick(true, true, 100);
    assert!(started && s.clicked);
    let started_again = s.tick(true, true, 100);
    assert!(!started_again);
    // Even after leaving the sensor, the latch holds and the ramp runs on.
    for _ in 0..100 {
        s.tick(false, false, 100);
        assert!(s.clicked);
    }
    assert!(s.activated());
    // Once activated, it never flips back.
    for _ in 0..100 {
        s.tick(false, false, 100);
        assert!(s.activated());
    }
}

#[test]
fn switch_activates_at_half_scale() {
    let mut s = Switch::new();
    s.tick(true, true, 200);
    assert_eq!(s.timer, 400_000);
    assert!(!s.activated());
    s.tick(false, false, 50);
    assert_eq!(s.timer, 500_000);
    assert!(s.activated());
    let green = s.screen_visible(true);
    let red = s.screen_visible(false);
    assert!(green && !red);
}

#[test]
fn gate_open_is_idempotent_and_never_restarts_animation() {
    let mut g = Gate::new();
    assert!(!g.opened());
    g.open();
    assert!(g.is_open && g.start_animation && !g.opened());
    // The tick consumes the pending start exactly once.
    let out = g.tick(false);
    assert_eq!(out.play, Some(GateAnimation::Opening));
    assert!(g.opened());
    // Opening an already open gate changes nothing and plays nothing.
    g.open();
    assert!(g.opened());
    let out2 = g.tick(false);
    assert_eq!(out2.play, None);
}

#[test]
fn gate_becomes_passable_when_open_animation_finishes() {
    let mut g = Gate::new();
    g.open();
    g.tick(false);
    assert!(!g.passable);
    g.tick(true);
    assert!(g.passable && g.opened());
}

#[test]
fn camera_triggers_after_five_watched_seconds() {
    let mut c = SecurityCamera::new();
    assert!(c.active && !c.triggered);
    // 0.2 per second: 49 ticks of 100 ms stay below full scale.
    for _ in 0..49 {
        c.tick(true, 100);
        assert!(!c.triggered);
    }
    c.tick(true, 100);
    assert!(c.triggered && c.timer == UNIT);
    // The alarm stays latched even once the camera is disarmed.
    c.active = false;
    c.tick(false, 10_000);
    assert!(c.triggered);
}

#[test]
fn camera_detection_relaxes_fast_while_unwatched() {
    let mut c = SecurityCamera::new();
    c.tick(true, 1_000);
    assert_eq!(c.timer, 200_000);
    // 1.0 per second downward.
    c.tick(false, 150);
    assert_eq!(c.timer, 50_000);
    c.tick(false, 150);
    assert_eq!(c.timer, 0);
    assert!(!c.triggered);
}

#[test]
fn camera_wire_bypass_counts_as_watched() {
    let mut c = SecurityCamera::new();
    c.wire = true;
    for _ in 0..50 {
        c.tick(false, 100);
    }
    assert!(c.triggered);
}

#[test]
fn camera_cone_blend_follows_two_ramps() {
    let mut c = SecurityCamera::new();
    assert_eq!(c.cone_blend(), (0, 0));
    c.tick(true, 1_000);
    assert_eq!(c.timer, 200_000);
    assert_eq!(c.cone_blend(), (600_000, 0));
    c.tick(true, 1_500);
    assert_eq!(c.timer, 500_000);
    assert_eq!(c.cone_blend(), (UNIT, 250_000));
    // The cone fades in at 2.0 per second while the camera is active.
    assert_eq!(c.cone_visibility, UNIT);
}

#[test]
fn fan_spins_down_only_when_stopped() {
    let mut f = Fan::new();
    f.tick(10_000);
    assert_eq!(f.factor, UNIT);
    f.spinning = false;
    f.tick(250);
    assert_eq!(f.factor, 750_000);
    f.tick(1_000);
    assert_eq!(f.factor, 0);
}

#[test]
fn fan_pushes_only_while_spinning_and_inside() {
    let mut a = PushAccum::new();
    let f = Fan::new();
    f.push(false, 0, 1_000, &mut a);
    assert_eq!((a.x, a.y), (0, 0));
    f.push(true, 0, 1_000, &mut a);
    assert_eq!((a.x, a.y), (0, 1_000));
    let mut stopped = Fan::new();
    stopped.spinning = false;
    stopped.push(true, 0, 1_000, &mut a);
    assert_eq!((a.x, a.y), (0, 1_000));
}

#[test]
fn digit_masks_match_the_seven_segment_table() {
    let table: [(u8, u8); 10] = [
        (0, 0x77),
        (1, 0x24),
        (2, 0x5d),
        (3, 0x6d),
        (4, 0x2e),
        (5, 0x6b),
        (6, 0x7b),
        (7, 0x25),
        (8, 0x7f),
        (9, 0x6f),
    ];
    for (digit, mask) in table {
        assert_eq!(segment_mask(Some(digit)), mask);
    }
    assert_eq!(segment_mask(None), 0);
}

fn enter_digit(c: &mut Code, digit: u8) {
    // Hover the button, then press and release the mouse.
    c.tick(true, false, false, Some(digit), 16);
    c.tick(true, false, true, Some(digit), 16);
    c.tick(true, false, false, Some(digit), 16);
}

#[test]
fn code_accepts_the_secret_after_the_verify_delay() {
    let mut c = Code::new(1234);
    let out = c.tick(true, true, false, None, 16);
    assert_eq!(c.state, CodeState::Acting);
    assert_eq!(out.focus, FocusChange::Engage);
    c.tick(true, false, false, None, 16);
    for d in [1u8, 2, 3] {
        enter_digit(&mut c, d);
        assert_eq!(c.state, CodeState::Acting);
    }
    enter_digit(&mut c, 4);
    assert_eq!(c.state, CodeState::InputFinished);
    assert_eq!(c.input, vec![1, 2, 3, 4]);
    // The verify delay runs at 5.0 per second: 0.2 simulated seconds.
    let out = c.tick(true, false, false, None, 100);
    assert_eq!(out.feedback, Some(true));
    assert_eq!(c.state, CodeState::InputFinished);
    c.tick(true, false, false, None, 100);
    assert_eq!(c.state, CodeState::Success);
    assert!(c.activated());
}

#[test]
fn code_success_is_terminal() {
    let mut c = Code::new(1234);
    c.tick(true, true, false, None, 16);
    c.tick(true, false, false, None, 16);
    for d in [1u8, 2, 3, 4] {
        enter_digit(&mut c, d);
    }
    c.tick(true, false, false, None, 200);
    c.tick(true, false, false, None, 200);
    assert_eq!(c.state, CodeState::Success);
    // Nothing moves a solved lock: not an action edge, not more clicks.
    c.tick(true, true, true, Some(9), 500);
    c.tick(false, false, false, None, 500);
    assert!(c.activated());
}

#[test]
fn code_clears_a_wrong_attempt_after_the_verify_delay() {
    let mut c = Code::new(1234);
    c.tick(true, true, false, None, 16);
    c.tick(true, false, false, None, 16);
    for d in [1u8, 2, 3, 5] {
        enter_digit(&mut c, d);
    }
    assert_eq!(c.state, CodeState::InputFinished);
    let out = c.tick(true, false, false, None, 200);
    assert_eq!(out.feedback, Some(false));
    assert_eq!(c.state, CodeState::Acting);
    assert!(c.input.is_empty());
    assert!(!c.activated());
}

#[test]
fn code_toggles_off_and_keeps_partial_input() {
    let mut c = Code::new(152);
    c.tick(true, true, false, None, 16);
    c.tick(true, false, false, None, 16);
    enter_digit(&mut c, 0);
    enter_digit(&mut c, 1);
    // A second action edge disengages the keypad.
    let out = c.tick(true, true, false, None, 16);
    assert_eq!(c.state, CodeState::Idle);
    assert_eq!(out.focus, FocusChange::Release);
    assert_eq!(c.input, vec![0, 1]);
    // Re-engage and finish: 0152 spells the secret 152.
    c.tick(true, false, false, None, 16);
    c.tick(true, true, false, None, 16);
    c.tick(true, false, false, None, 16);
    enter_digit(&mut c, 5);
    enter_digit(&mut c, 2);
    assert_eq!(c.state, CodeState::InputFinished);
    c.tick(true, false, false, None, 200);
    assert_eq!(c.state, CodeState::Success);
}

#[test]
fn code_display_masks_show_input_and_blank_slots() {
    let mut c = Code::new(1234);
    c.tick(true, true, false, None, 16);
    c.tick(true, false, false, None, 16);
    enter_digit(&mut c, 8);
    let masks = c.display_masks();
    assert_eq!(masks, vec![0x7f, 0, 0, 0]);
}

#[test]
fn code_button_depth_ramps_toward_the_hovered_button() {
    let mut c = Code::new(1234);
    c.tick(true, true, false, None, 16);
    c.tick(true, false, false, None, 16);
    // 10 per second: 50 ms presses halfway.
    c.tick(true, false, false, Some(3), 50);
    assert_eq!(c.button_timers[3], 500_000);
    assert_eq!(c.button_timers[2], 0);
    c.tick(true, false, false, Some(2), 25);
    assert_eq!(c.button_timers[3], 250_000);
    assert_eq!(c.button_timers[2], 250_000);
}
