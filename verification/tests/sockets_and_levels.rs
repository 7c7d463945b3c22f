use puzzle_core::levels::lvl1::Level1;
use puzzle_core::levels::lvl2::Level2;
use puzzle_core::levels::lvl3::Level3;
use puzzle_core::levels::lvl4::Level4;
use puzzle_core::player::PushAccum;
use puzzle_core::ramp::UNIT;
use puzzle_core::sequence::{GameState, Transition};
use puzzle_core::socket::{
    resolve_wire, tick_sockets, CameraHit, Socket, SocketState, WireHit, WireSense,
};

fn clear_sense() -> WireSense {
    WireSense { obstruction: None, camera: None }
}

fn pair() -> Vec<Socket> {
    vec![Socket::new(true), Socket::new(false)]
}

#[test]
fn socket_pickup_claims_the_carried_slot() {
    let mut sockets = pair();
    let out = tick_sockets(&mut sockets, &vec![true, false], true, 16, &clear_sense());
    assert_eq!(out.picked_up, Some(0));
    assert_eq!(sockets[0].state, SocketState::Carrying);
    assert_eq!(sockets[1].state, SocketState::CanCarryTo);
}

#[test]
fn socket_break_ramp_forces_a_drop_and_resets_the_timer() {
    let mut sockets = pair();
    tick_sockets(&mut sockets, &vec![true, false], true, 16, &clear_sense());
    let blocked = WireSense {
        obstruction: Some(WireHit { distance: 2_000_000, under_carried: false }),
        camera: None,
    };
    // 2.0 per second upward: 250 ms twice saturates the ramp.
    let out = tick_sockets(&mut sockets, &vec![false, false], false, 250, &blocked);
    assert_eq!(out.dropped, None);
    assert_eq!(sockets[0].break_timer, 500_000);
    let out = tick_sockets(&mut sockets, &vec![false, false], false, 250, &blocked);
    assert_eq!(out.dropped, Some(0));
    assert_eq!(sockets[0].state, SocketState::CanCarryFrom);
    assert_eq!(sockets[0].break_timer, 0);
    assert_eq!(out.connected, None);
}

#[test]
fn socket_break_ramp_mends_quickly_on_a_clear_wire() {
    let mut sockets = pair();
    tick_sockets(&mut sockets, &vec![true, false], true, 16, &clear_sense());
    let blocked = WireSense {
        obstruction: Some(WireHit { distance: 5, under_carried: false }),
        camera: None,
    };
    tick_sockets(&mut sockets, &vec![false, false], false, 250, &blocked);
    assert_eq!(sockets[0].break_timer, 500_000);
    // 5.0 per second downward.
    tick_sockets(&mut sockets, &vec![false, false], false, 100, &clear_sense());
    assert_eq!(sockets[0].break_timer, 0);
    assert_eq!(sockets[0].state, SocketState::Carrying);
}

#[test]
fn socket_hit_under_the_carried_socket_is_no_obstruction() {
    let mut sockets = pair();
    tick_sockets(&mut sockets, &vec![true, false], true, 16, &clear_sense());
    let own = WireSense {
        obstruction: Some(WireHit { distance: 5, under_carried: true }),
        camera: None,
    };
    tick_sockets(&mut sockets, &vec![false, false], false, 400, &own);
    assert_eq!(sockets[0].break_timer, 0);
    assert_eq!(sockets[0].state, SocketState::Carrying);
}

#[test]
fn socket_connect_links_both_ends_atomically() {
    let mut sockets = pair();
    tick_sockets(&mut sockets, &vec![true, false], true, 16, &clear_sense());
    tick_sockets(&mut sockets, &vec![false, false], false, 16, &clear_sense());
    assert!(!sockets[0].connected() && !sockets[1].connected());
    let out = tick_sockets(&mut sockets, &vec![false, true], true, 16, &clear_sense());
    assert_eq!(out.connected, Some((0, 1)));
    assert_eq!(sockets[0].state, SocketState::ConnectedTo(1));
    assert_eq!(sockets[1].state, SocketState::ConnectedFrom);
    assert!(sockets[0].connected() && sockets[1].connected());
}

#[test]
fn socket_connections_are_permanent() {
    let mut sockets = pair();
    tick_sockets(&mut sockets, &vec![true, false], true, 16, &clear_sense());
    tick_sockets(&mut sockets, &vec![false, false], false, 16, &clear_sense());
    tick_sockets(&mut sockets, &vec![false, true], true, 16, &clear_sense());
    assert_eq!(sockets[0].state, SocketState::ConnectedTo(1));
    // Further action edges and sensor contacts change nothing.
    tick_sockets(&mut sockets, &vec![false, false], false, 16, &clear_sense());
    tick_sockets(&mut sockets, &vec![true, true], true, 16, &clear_sense());
    assert_eq!(sockets[0].state, SocketState::ConnectedTo(1));
    assert_eq!(sockets[1].state, SocketState::ConnectedFrom);
}

#[test]
fn socket_action_without_a_destination_cancels_the_carry() {
    let mut sockets = pair();
    tick_sockets(&mut sockets, &vec![true, false], true, 16, &clear_sense());
    tick_sockets(&mut sockets, &vec![false, false], false, 16, &clear_sense());
    let out = tick_sockets(&mut sockets, &vec![false, false], true, 16, &clear_sense());
    assert_eq!(out.connected, None);
    assert_eq!(sockets[0].state, SocketState::CanCarryFrom);
}

#[test]
fn socket_wire_marks_and_unmarks_the_crossed_camera() {
    let mut sockets = pair();
    tick_sockets(&mut sockets, &vec![true, false], true, 16, &clear_sense());
    let crossing = WireSense {
        obstruction: None,
        camera: Some(CameraHit { camera: 7, distance: 3_000_000 }),
    };
    let out = tick_sockets(&mut sockets, &vec![false, false], false, 16, &crossing);
    assert_eq!(out.mark, Some(7));
    assert_eq!(out.unmark, None);
    assert_eq!(sockets[0].camera, Some(7));
    let out = tick_sockets(&mut sockets, &vec![false, false], false, 16, &clear_sense());
    assert_eq!(out.mark, None);
    assert_eq!(out.unmark, Some(7));
    assert_eq!(sockets[0].camera, None);
}

#[test]
fn socket_nearer_obstruction_wins_over_the_camera() {
    let sense = WireSense {
        obstruction: Some(WireHit { distance: 10, under_carried: false }),
        camera: Some(CameraHit { camera: 3, distance: 20 }),
    };
    let routing = resolve_wire(&sense);
    assert!(routing.breaking);
    assert_eq!(routing.bypass, None);
    // At equal distance the camera bypass applies instead.
    let sense = WireSense {
        obstruction: Some(WireHit { distance: 20, under_carried: false }),
        camera: Some(CameraHit { camera: 3, distance: 20 }),
    };
    let routing = resolve_wire(&sense);
    assert!(!routing.breaking);
    assert_eq!(routing.bypass, Some(3));
}

#[test]
fn scenario_switch_then_gate_opens_and_unblocks() {
    let mut level = Level1::new();
    // Hold inside + action for the switch's full ramp duration (2.0 per
    // second to the half-scale threshold: 250 ms).
    level.switch2.tick(true, true, 125);
    assert!(!level.switch2.activated());
    level.switch2.tick(true, true, 125);
    assert!(level.switch2.activated());
    level.process_sensors();
    assert!(!level.gate1.opened());
    // Wait out the open animation.
    level.gate1.tick(false);
    assert!(level.gate1.opened());
    assert!(!level.gate1.passable);
    level.gate1.tick(true);
    assert!(level.gate1.passable);
    // Re-wiring with the switch still on must not restart the animation.
    level.process_sensors();
    let out = level.gate1.tick(true);
    assert_eq!(out.play, None);
    assert!(level.gate1.passable);
}

#[test]
fn scenario_three_fans_fill_the_shared_accumulator_once_per_tick() {
    let mut level = Level3::new();
    let mut push = PushAccum::new();
    // One tick: clear, then every fan contributes a unit force.
    push.clear();
    level.fan1.push(true, 0, 1_000, &mut push);
    level.fan2.push(true, 0, 1_000, &mut push);
    level.fan3.push(true, 0, 1_000, &mut push);
    assert_eq!((push.x, push.y), (0, 3_000));
    // Next tick: the accumulator resets before any fan runs.
    push.clear();
    assert_eq!((push.x, push.y), (0, 0));
    level.fan1.push(true, 0, 1_000, &mut push);
    assert_eq!((push.x, push.y), (0, 1_000));
}

#[test]
fn level1_wiring_disarms_the_camera_while_switch_or_code_is_on() {
    let mut level = Level1::new();
    level.process_sensors();
    assert!(level.cam1.active);
    level.switch1.tick(true, true, 250);
    level.process_sensors();
    assert!(!level.cam1.active);
}

#[test]
fn level2_wiring_stops_the_fan_and_advances_on_connection() {
    let mut level = Level2::new();
    let t = level.process_sensors();
    assert_eq!(t, None);
    assert!(level.fan1.spinning);
    // Solve the keypad: 1824.
    level.code1.tick(true, true, false, None, 16);
    level.code1.tick(true, false, false, None, 16);
    for d in [1u8, 8, 2, 4] {
        level.code1.tick(true, false, false, Some(d), 16);
        level.code1.tick(true, false, true, Some(d), 16);
        level.code1.tick(true, false, false, Some(d), 16);
    }
    level.code1.tick(true, false, false, None, 200);
    level.code1.tick(true, false, false, None, 200);
    assert!(level.code1.activated());
    let t = level.process_sensors();
    assert_eq!(t, None);
    assert!(!level.fan1.spinning);
    // Connect the socket pair and the wiring advances.
    tick_sockets(&mut level.sockets, &vec![true, false], true, 16, &clear_sense());
    tick_sockets(&mut level.sockets, &vec![false, false], false, 16, &clear_sense());
    tick_sockets(&mut level.sockets, &vec![false, true], true, 16, &clear_sense());
    let t = level.process_sensors();
    assert_eq!(t, Some(Transition::Goto(GameState::Level3)));
}

#[test]
fn level2_restart_outranks_the_advance() {
    let mut level = Level2::new();
    level.cam1.triggered = true;
    level.cam1.timer = UNIT;
    level.sockets[1].state = SocketState::ConnectedFrom;
    let t = level.process_sensors();
    assert_eq!(t, Some(Transition::Restart));
}

#[test]
fn level3_wiring_drives_its_three_fans_and_gate() {
    let mut level = Level3::new();
    level.switch1.tick(true, true, 250);
    level.switch2.tick(true, true, 250);
    let t = level.process_sensors();
    assert_eq!(t, None);
    assert!(level.gate1.is_open);
    assert!(!level.fan3.spinning);
    assert!(level.fan1.spinning && level.fan2.spinning);
}

#[test]
fn level4_camera_trigger_restarts_even_with_the_socket_connected() {
    let mut level = Level4::new();
    level.cam1.triggered = true;
    level.cam1.timer = UNIT;
    level.sockets[1].state = SocketState::ConnectedFrom;
    let t = level.process_sensors();
    assert_eq!(t, Some(Transition::Restart));
    level.cam1.triggered = false;
    level.cam1.timer = 0;
    let t = level.process_sensors();
    assert_eq!(t, Some(Transition::Goto(GameState::Level2)));
}
