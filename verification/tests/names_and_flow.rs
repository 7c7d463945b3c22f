use puzzle_core::discovery::{
    button_on_chain, camera_part, chain_contains, code_part, contains_sub, decode_button,
    decode_segment, eq_bytes, fan_part, find_sub, gate_physics, rootmost_in, socket_sensor,
    switch_part, CameraPart, CodePart, FanPart, SwitchPart,
};
use puzzle_core::generator::generate;
use puzzle_core::levels::lvl0::{level0_role, Level0, Level0Role};
use puzzle_core::levels::lvl1::{level1_role, Level1Role};
use puzzle_core::levels::lvl2::{level2_role, Level2Role};
use puzzle_core::levels::lvl3::{level3_role, Level3Role};
use puzzle_core::levels::lvl4::{level4_role, Level4Role};
use puzzle_core::player::{CollisionEvent, Direction, PlayerLight, PushAccum, TouchSet};
use puzzle_core::sequence::{GameState, Sequencer, Transition};

#[test]
fn find_sub_returns_the_first_occurrence() {
    assert_eq!(find_sub(b"lever1_sensor", b"sensor"), Some(7));
    assert_eq!(find_sub(b"sensor_sensor", b"sensor"), Some(0));
    assert_eq!(find_sub(b"gate", b"sensor"), None);
    assert_eq!(find_sub(b"abc", b""), Some(0));
    assert_eq!(find_sub(b"", b"a"), None);
    assert!(contains_sub(b"camera.1.cone", b"cone"));
    assert!(!contains_sub(b"camera.1", b"cone"));
}

#[test]
fn eq_bytes_is_exact_equality() {
    assert!(eq_bytes(b"switch.1", b"switch.1"));
    assert!(!eq_bytes(b"switch.1", b"switch.10"));
    assert!(!eq_bytes(b"switch.1", b"switch.2"));
}

#[test]
fn segment_names_decode_their_digit_and_segment() {
    // `segment_<d>_<s>` carries a one-based digit slot and segment index.
    assert_eq!(decode_segment(b"code_segment_1_1"), Some((0, 0)));
    assert_eq!(decode_segment(b"segment_4_7"), Some((3, 6)));
    assert_eq!(decode_segment(b"segment_2_5.003"), Some((1, 4)));
    // Out-of-range or truncated names are authoring errors.
    assert_eq!(decode_segment(b"segment_5_1"), None);
    assert_eq!(decode_segment(b"segment_0_1"), None);
    assert_eq!(decode_segment(b"segment_1_8"), None);
    assert_eq!(decode_segment(b"segment_1"), None);
    assert_eq!(decode_segment(b"lever"), None);
}

#[test]
fn button_names_decode_their_digit() {
    assert_eq!(decode_button(b"btn_0"), Some(0));
    assert_eq!(decode_button(b"pad.btn_9.001"), Some(9));
    assert_eq!(decode_button(b"btn_x"), None);
    assert_eq!(decode_button(b"btn_"), None);
    assert_eq!(decode_button(b"button"), None);
}

#[test]
fn part_classifiers_follow_the_name_and_shape() {
    assert_eq!(switch_part(b"screen_red", true, false), Some(SwitchPart::RedScreen));
    assert_eq!(switch_part(b"screen_green", true, false), Some(SwitchPart::GreenScreen));
    assert_eq!(switch_part(b"switch_sensor", false, true), Some(SwitchPart::Sensor));
    assert_eq!(switch_part(b"screen_red", false, false), None);
    assert!(gate_physics(b"gate_physics", true));
    assert!(!gate_physics(b"gate_physics", false));
    assert_eq!(camera_part(b"camera.1.cone", true, false), Some(CameraPart::Cone));
    assert_eq!(camera_part(b"camera.1.sensor", false, true), Some(CameraPart::Sensor));
    assert_eq!(code_part(b"code_screen", true, false), Some(CodePart::Screen));
    assert_eq!(code_part(b"code_sensor", false, true), Some(CodePart::Sensor));
    assert_eq!(code_part(b"segment_3_2", false, false), Some(CodePart::Segment(2, 1)));
    assert_eq!(code_part(b"btn_7", false, false), Some(CodePart::Button(7)));
    assert_eq!(code_part(b"segment_9_9", false, false), None);
    assert_eq!(fan_part(b"fan_pusher", true), Some(FanPart::Pusher));
    assert_eq!(fan_part(b"fan.002", false), Some(FanPart::Model));
    assert!(socket_sensor(b"socket_sensor", true));
}

#[test]
fn level_roles_bind_the_authored_names() {
    assert_eq!(level0_role(b"pusher1"), Some(Level0Role::Pusher1));
    assert_eq!(level0_role(b"lever1_sensor"), Some(Level0Role::Lever1Sensor));
    assert_eq!(level1_role(b"camera.1"), Some(Level1Role::Cam1));
    assert_eq!(level1_role(b"socket_end.1"), Some(Level1Role::Socket2));
    assert_eq!(level2_role(b"code.002"), Some(Level2Role::Code1));
    assert_eq!(level3_role(b"fan.006"), Some(Level3Role::Fan2));
    assert_eq!(level4_role(b"switch.010"), Some(Level4Role::Switch5));
    assert_eq!(level4_role(b"switch.011"), None);
    assert_eq!(level1_role(b"camera.10"), None);
}

#[test]
fn ray_hits_are_attributed_through_the_ancestor_chain() {
    // The chain runs from the hit entity up to the scene root.
    let chain: [u64; 4] = [400, 31, 12, 1];
    assert!(chain_contains(&chain, 31));
    assert!(!chain_contains(&chain, 77));
    let buttons: Vec<u64> = vec![30, 31, 32, 33, 34, 35, 36, 37, 38, 39];
    assert_eq!(button_on_chain(&chain, &buttons), Some(1));
    assert_eq!(button_on_chain(&[400, 77], &buttons), None);
    let cameras: Vec<u64> = vec![12, 31];
    // Both a camera and one of its camera ancestors stand on the chain: the
    // rootmost one owns the hit.
    assert_eq!(rootmost_in(&chain, &cameras), Some(12));
    assert_eq!(rootmost_in(&[400, 31], &cameras), Some(31));
    assert_eq!(rootmost_in(&[400], &cameras), None);
}

#[test]
fn touch_set_follows_begin_and_end_events() {
    let player = 1;
    let mut touching = TouchSet::new();
    let events = vec![
        CollisionEvent::Started(1, 10),
        CollisionEvent::Started(20, 1),
        CollisionEvent::Started(30, 40),
        CollisionEvent::Stopped(10, 1),
    ];
    touching.process_collisions(player, &events);
    assert!(!touching.contains(10));
    assert!(touching.contains(20));
    assert!(!touching.contains(30) && !touching.contains(40));
    touching.apply_event(player, CollisionEvent::Stopped(1, 20));
    assert!(!touching.contains(20));
}

#[test]
fn level0_pusher_feeds_the_accumulator_until_the_lever_is_pulled() {
    let mut level = Level0::new();
    let mut push = PushAccum::new();
    level.process_sensors(true, false, Direction::Right, false, &mut push);
    assert_eq!((push.x, push.y), (0, 15_000));
    // Facing right, the action does nothing to the lever.
    level.process_sensors(true, true, Direction::Right, true, &mut push);
    assert!(level.pusher1_active);
    // Facing left with the action pressed shuts the pusher off; the push of
    // that same tick still reads the state from the start of the tick.
    level.process_sensors(true, true, Direction::Left, true, &mut push);
    assert_eq!((push.x, push.y), (0, 15_000));
    assert!(!level.pusher1_active);
    level.process_sensors(true, false, Direction::Right, false, &mut push);
    assert_eq!((push.x, push.y), (0, 0));
    // The lever animation starts exactly once, and the fan stops looping.
    assert!(level.lever_animation_start());
    assert!(!level.lever_animation_start());
    assert!(!level.fan_running());
}

#[test]
fn sequencer_applies_a_latched_advance_next_tick() {
    let mut seq = Sequencer::new(GameState::Level2);
    assert_eq!(seq.apply(), None);
    seq.request(Transition::Goto(GameState::Level3));
    assert_eq!(seq.state, GameState::Level2);
    assert_eq!(seq.apply(), Some(GameState::Level3));
    assert_eq!(seq.state, GameState::Level3);
    assert_eq!(seq.apply(), None);
}

#[test]
fn sequencer_restart_returns_to_the_same_level_and_wins_the_tick() {
    let mut seq = Sequencer::new(GameState::Level4);
    seq.request(Transition::Restart);
    // An advance latched later in the same tick cannot displace the restart.
    seq.request(Transition::Goto(GameState::Level2));
    assert_eq!(seq.apply(), Some(GameState::Level4));
    assert_eq!(seq.state, GameState::Level4);
}

#[test]
fn generated_layouts_use_the_vocabulary_and_join_shape() {
    for _ in 0..50 {
        let layout = generate();
        assert!(!layout.is_empty());
        assert!(!layout.starts_with(' ') && !layout.ends_with(' '));
        let tokens: Vec<&str> = layout.split(' ').collect();
        assert!(!tokens.is_empty());
        assert_ne!(tokens[0], "|");
        assert_ne!(tokens[tokens.len() - 1], "|");
        for t in tokens {
            assert!(
                matches!(t, "wall" | "fan" | "gate" | "camera" | "switch" | "input" | "tip" | "|"),
                "unexpected token {t} in {layout}"
            );
        }
    }
}

#[test]
fn player_light_shows_above_half_scale() {
    let mut light = PlayerLight::new();
    light.tick(true, 100);
    assert_eq!(light.timer, 500_000);
    assert!(!light.visible());
    light.tick(true, 10);
    assert!(light.visible());
    // 20.0 per second off: 50 ms clears it fully.
    light.tick(false, 50);
    assert_eq!(light.timer, 0);
    assert!(!light.visible());
}
