//! Sockets: the carry-and-connect puzzle. The player picks a start socket
//! up, routes a wire through space, and connects it to an end socket. While
//! carried, a raycast along the wire can find obstructions (ramping a break
//! timer that eventually forces a drop) or a security camera volume (marking
//! that camera as wire-bypassed for as long as the wire stays on it).
use vstd::prelude::*;

use crate::ramp;
use crate::ramp::UNIT;

verus! {

/// The break timer rises at 2.0/s while the wire is obstructed.
pub const BREAK_RATE: u64 = 2000;

/// The break timer falls at 5.0/s while the wire is clear.
pub const MEND_RATE: u64 = 5000;

#[derive(PartialEq, Eq, Structural, Clone, Copy, Debug)]
pub enum SocketState {
    /// An origin socket waiting to be picked up.
    CanCarryFrom,
    /// A destination socket waiting for a wire.
    CanCarryTo,
    /// Picked up: the wire runs from this socket to the player.
    Carrying,
    /// Connected as origin; the payload is the peer's index in the bank.
    ConnectedTo(usize),
    /// Connected as destination.
    ConnectedFrom,
}

#[derive(PartialEq, Eq, Structural, Clone, Copy, Debug)]
pub struct Socket {
    pub state: SocketState,
    pub is_action_last: bool,
    /// Wire-break progress in `[0, UNIT]` micro-steps.
    pub break_timer: u64,
    /// The camera this socket's routed wire currently bypasses, if any.
    pub camera: Option<u64>,
}

/// The nearest solid, non-sensor, non-player hit along the routed wire.
#[derive(PartialEq, Eq, Structural, Clone, Copy, Debug)]
pub struct WireHit {
    /// Distance from the carry anchor, in micro-units.
    pub distance: u64,
    /// Whether the hit lies under the carried socket's own hierarchy.
    pub under_carried: bool,
}

/// The nearest hit rooted under a security camera along the routed wire.
#[derive(PartialEq, Eq, Structural, Clone, Copy, Debug)]
pub struct CameraHit {
    pub camera: u64,
    /// Distance from the carry anchor, in micro-units.
    pub distance: u64,
}

/// What the raycast collaborator saw along the routed wire this tick.
#[derive(PartialEq, Eq, Structural, Clone, Copy, Debug)]
pub struct WireSense {
    pub obstruction: Option<WireHit>,
    pub camera: Option<CameraHit>,
}

/// The routing decision for one tick: whether the wire is breaking, and which
/// camera (if any) it bypasses.
#[derive(PartialEq, Eq, Structural, Clone, Copy, Debug)]
pub struct WireRouting {
    pub breaking: bool,
    pub bypass: Option<u64>,
}

/// The tie-break between the two wire queries: a hit under the carried socket
/// itself is no obstruction; a strictly nearer obstruction wins over a camera
/// hit; the camera bypass applies otherwise.
pub open spec fn spec_routing(sense: WireSense) -> WireRouting {
    let obstruction = match sense.obstruction {
        Some(h) => if h.under_carried {
            None
        } else {
            Some(h.distance)
        },
        None => None,
    };
    match (obstruction, sense.camera) {
        (Some(d), Some(c)) => if d < c.distance {
            WireRouting { breaking: true, bypass: None }
        } else {
            WireRouting { breaking: false, bypass: Some(c.camera) }
        },
        (Some(d), None) => WireRouting { breaking: true, bypass: None },
        (None, Some(c)) => WireRouting { breaking: false, bypass: Some(c.camera) },
        (None, None) => WireRouting { breaking: false, bypass: None },
    }
}

/// Resolve the two wire raycast results into a routing decision.
pub fn resolve_wire(sense: &WireSense) -> (r: WireRouting)
    ensures
        r == spec_routing(*sense),
{
    let obstruction = match sense.obstruction {
        Some(h) => if h.under_carried {
            None
        } else {
            Some(h.distance)
        },
        None => None,
    };
    match (obstruction, sense.camera) {
        (Some(d), Some(c)) => if d < c.distance {
            WireRouting { breaking: true, bypass: None }
        } else {
            WireRouting { breaking: false, bypass: Some(c.camera) }
        },
        (Some(d), None) => WireRouting { breaking: true, bypass: None },
        (None, Some(c)) => WireRouting { breaking: false, bypass: Some(c.camera) },
        (None, None) => WireRouting { breaking: false, bypass: None },
    }
}

/// What one socket-system tick reports back, for the level orchestrator and
/// the collaborators to act on.
#[derive(PartialEq, Eq, Clone, Copy, Debug)]
pub struct SocketStepOut {
    /// Socket the player picked up this tick (claiming the carried slot).
    pub picked_up: Option<usize>,
    /// Camera to mark as wire-bypassed this tick.
    pub mark: Option<u64>,
    /// Camera whose wire-bypass mark the wire has left this tick.
    pub unmark: Option<u64>,
    /// Connection made this tick: (origin, destination).
    pub connected: Option<(usize, usize)>,
    /// Carried socket force-dropped this tick by a full break ramp.
    pub dropped: Option<usize>,
}

impl Socket {
    pub open spec fn spec_connected(self) -> bool {
        match self.state {
            SocketState::ConnectedTo(_) => true,
            SocketState::ConnectedFrom => true,
            _ => false,
        }
    }

    pub fn new(start: bool) -> (s: Socket)
        ensures
            s.state == if start {
                SocketState::CanCarryFrom
            } else {
                SocketState::CanCarryTo
            },
            !s.is_action_last,
            s.break_timer == 0,
            s.camera is None,
            !s.spec_connected(),
    {
        Socket {
            state: if start {
                SocketState::CanCarryFrom
            } else {
                SocketState::CanCarryTo
            },
            is_action_last: false,
            break_timer: 0,
            camera: None,
        }
    }

    pub fn connected(&self) -> (r: bool)
        ensures
            r == self.spec_connected(),
    {
        match self.state {
            SocketState::ConnectedTo(_) => true,
            SocketState::ConnectedFrom => true,
            _ => false,
        }
    }
}

/// The per-socket part of a tick that needs no cross-socket knowledge:
/// the action edge is consumed, and an origin socket the player stands in
/// is picked up on that edge.
pub open spec fn phase1(s: Socket, inside: bool, action: bool) -> Socket {
    let acted = !s.is_action_last && action;
    if s.state == SocketState::CanCarryFrom && inside && acted {
        Socket { state: SocketState::Carrying, is_action_last: action, ..s }
    } else {
        Socket { is_action_last: action, ..s }
    }
}

pub open spec fn spec_is_carrier(sockets: Seq<Socket>, i: int) -> bool {
    0 <= i < sockets.len() && sockets[i].state == SocketState::Carrying
}

/// The carried socket, before this tick's transitions.
pub open spec fn spec_carrier(sockets: Seq<Socket>) -> Option<int> {
    if exists|i: int| spec_is_carrier(sockets, i) {
        Some(choose|i: int| spec_is_carrier(sockets, i))
    } else {
        None
    }
}

pub open spec fn spec_is_dest(sockets: Seq<Socket>, inside: Seq<bool>, i: int) -> bool {
    0 <= i < sockets.len() && sockets[i].state == SocketState::CanCarryTo && inside[i]
}

/// The destination socket the player currently occupies, if any.
pub open spec fn spec_dest(sockets: Seq<Socket>, inside: Seq<bool>) -> Option<int> {
    if exists|i: int| spec_is_dest(sockets, inside, i) {
        Some(choose|i: int| spec_is_dest(sockets, inside, i))
    } else {
        None
    }
}

pub open spec fn spec_is_pickup(sockets: Seq<Socket>, inside: Seq<bool>, action: bool, i: int) -> bool {
    0 <= i < sockets.len() && sockets[i].state == SocketState::CanCarryFrom && inside[i]
        && !sockets[i].is_action_last && action
}

/// The origin socket picked up this tick, if any.
pub open spec fn spec_pickup(sockets: Seq<Socket>, inside: Seq<bool>, action: bool) -> Option<usize> {
    if exists|i: int| spec_is_pickup(sockets, inside, action, i) {
        Some((choose|i: int| spec_is_pickup(sockets, inside, action, i)) as usize)
    } else {
        None
    }
}

/// The socket system's invariant: at most one socket is carried, action
/// edges are derived from one shared input snapshot, timers are clamped,
/// and connection links stay inside the bank.
pub open spec fn bank_wf(sockets: Seq<Socket>) -> bool {
    &&& (forall|i: int, j: int|
        spec_is_carrier(sockets, i) && spec_is_carrier(sockets, j) ==> i == j)
    &&& (forall|i: int| 0 <= i < sockets.len() ==> (#[trigger] sockets[i]).break_timer <= UNIT)
    &&& (forall|i: int, j: int|
        0 <= i < sockets.len() && 0 <= j < sockets.len() ==> (#[trigger] sockets[i]).is_action_last
            == (#[trigger] sockets[j]).is_action_last)
    &&& (forall|i: int|
        0 <= i < sockets.len() ==> match (#[trigger] sockets[i]).state {
            SocketState::ConnectedTo(p) => p < sockets.len() && p != i,
            _ => true,
        })
}

/// The whole socket system after one tick, with its outputs.
pub open spec fn bank_ticked(
    sockets: Seq<Socket>,
    inside: Seq<bool>,
    action: bool,
    delta_ms: u64,
    sense: WireSense,
) -> (Seq<Socket>, SocketStepOut) {
    let picked = spec_pickup(sockets, inside, action);
    let after1 = Seq::new(sockets.len(), |i: int| phase1(sockets[i], inside[i], action));
    let quiet = SocketStepOut {
        picked_up: picked,
        mark: None,
        unmark: None,
        connected: None,
        dropped: None,
    };
    match spec_carrier(sockets) {
        None => (after1, quiet),
        Some(c) => {
            let carrier = sockets[c];
            let acted = !carrier.is_action_last && action;
            let routing = spec_routing(sense);
            let old_cam = carrier.camera;
            let rate = if routing.breaking {
                BREAK_RATE
            } else {
                MEND_RATE
            };
            let t = ramp::ramp_step(carrier.break_timer, delta_ms, rate, routing.breaking, 0, UNIT) as u64;
            if routing.breaking && t == UNIT {
                // The wire snapped: the socket falls back to its origin
                // state, the timer resets, and any bypass mark is lifted.
                let snapped = Socket {
                    state: SocketState::CanCarryFrom,
                    is_action_last: action,
                    break_timer: 0,
                    camera: None,
                };
                (
                    after1.update(c, snapped),
                    SocketStepOut { unmark: old_cam, dropped: Some(c as usize), ..quiet },
                )
            } else if acted {
                match spec_dest(sockets, inside) {
                    Some(j) => {
                        // Connect: origin and destination change together.
                        let origin = Socket {
                            state: SocketState::ConnectedTo(j as usize),
                            is_action_last: action,
                            break_timer: t,
                            camera: None,
                        };
                        let target = Socket { state: SocketState::ConnectedFrom, ..after1[j] };
                        (
                            after1.update(c, origin).update(j, target),
                            SocketStepOut {
                                unmark: old_cam,
                                connected: Some((c as usize, j as usize)),
                                ..quiet
                            },
                        )
                    },
                    None => {
                        // Cancel: put the socket back without a destination.
                        let origin = Socket {
                            state: SocketState::CanCarryFrom,
                            is_action_last: action,
                            break_timer: t,
                            camera: None,
                        };
                        (after1.update(c, origin), SocketStepOut { unmark: old_cam, ..quiet })
                    },
                }
            } else {
                // Still carried: keep ramping and follow the camera bypass.
                let origin = Socket {
                    state: SocketState::Carrying,
                    is_action_last: action,
                    break_timer: t,
                    camera: routing.bypass,
                };
                let unmark = match (old_cam, routing.bypass) {
                    (Some(a), Some(b)) => if a != b {
                        Some(a)
                    } else {
                        None
                    },
                    (Some(a), None) => Some(a),
                    _ => None,
                };
                (
                    after1.update(c, origin),
                    SocketStepOut { mark: routing.bypass, unmark, ..quiet },
                )
            }
        },
    }
}

/// A full break ramp forces the carried socket back to `CanCarryFrom`, resets
/// the break timer to zero, and discards any in-progress connection attempt.
pub proof fn lemma_break_drops_carrier(
    sockets: Seq<Socket>,
    inside: Seq<bool>,
    action: bool,
    delta_ms: u64,
    sense: WireSense,
)
    requires
        bank_wf(sockets),
        inside.len() == sockets.len(),
        sockets.len() <= usize::MAX,
    ensures
        ({
            let r = bank_ticked(sockets, inside, action, delta_ms, sense);
            r.1.dropped matches Some(d) ==> {
                &&& spec_carrier(sockets) == Some(d as int)
                &&& r.0[d as int].state == SocketState::CanCarryFrom
                &&& r.0[d as int].break_timer == 0
                &&& r.1.connected is None
            }
        }),
{
    match spec_carrier(sockets) {
        Some(c) => {
            assert(spec_is_carrier(sockets, c));
            match spec_dest(sockets, inside) {
                Some(j) => {
                    assert(spec_is_dest(sockets, inside, j));
                },
                None => {},
            }
        },
        None => {},
    }
}

/// Connecting is atomic and permanent: when a connection is reported, the
/// origin points at the destination and the destination is connected back; no
/// other tick changes any socket's connectedness, and a connected socket
/// keeps its link forever.
pub proof fn lemma_connect_atomic(
    sockets: Seq<Socket>,
    inside: Seq<bool>,
    action: bool,
    delta_ms: u64,
    sense: WireSense,
)
    requires
        bank_wf(sockets),
        inside.len() == sockets.len(),
        sockets.len() <= usize::MAX,
    ensures
        ({
            let r = bank_ticked(sockets, inside, action, delta_ms, sense);
            r.1.connected matches Some(p) ==> {
                &&& r.0[p.0 as int].state == SocketState::ConnectedTo(p.1)
                &&& r.0[p.1 as int].state == SocketState::ConnectedFrom
            }
        }),
        ({
            let r = bank_ticked(sockets, inside, action, delta_ms, sense);
            forall|i: int|
                0 <= i < sockets.len() && (match r.1.connected {
                    Some(p) => i != p.0 && i != p.1,
                    None => true,
                }) ==> ((#[trigger] r.0[i]).spec_connected() <==> sockets[i].spec_connected())
        }),
        ({
            let r = bank_ticked(sockets, inside, action, delta_ms, sense);
            forall|i: int|
                0 <= i < sockets.len() && (#[trigger] sockets[i]).spec_connected() ==> r.0[i].state
                    == sockets[i].state
        }),
{
    match spec_carrier(sockets) {
        Some(c) => {
            assert(spec_is_carrier(sockets, c));
            match spec_dest(sockets, inside) {
                Some(j) => {
                    assert(spec_is_dest(sockets, inside, j));
                },
                None => {},
            }
        },
        None => {},
    }
    let r = bank_ticked(sockets, inside, action, delta_ms, sense);
    assert forall|i: int|
        0 <= i < sockets.len() && (match r.1.connected {
            Some(p) => i != p.0 && i != p.1,
            None => true,
        }) implies ((#[trigger] r.0[i]).spec_connected() <==> sockets[i].spec_connected()) by {
        match spec_carrier(sockets) {
            Some(c) => {
                if i != c {
                    assert(r.0[i] == phase1(sockets[i], inside[i], action));
                }
            },
            None => {
                assert(r.0[i] == phase1(sockets[i], inside[i], action));
            },
        }
    }
}

/// One tick of the whole socket system.
///
/// `inside[i]` says whether the player stands in socket `i`'s sensor; `sense`
/// is what the wire raycasts saw (ignored unless a socket is carried). The
/// level layout puts sensors apart, so at most one origin and one destination
/// can hold the player at once.
pub fn tick_sockets(
    sockets: &mut Vec<Socket>,
    inside: &Vec<bool>,
    action: bool,
    delta_ms: u64,
    sense: &WireSense,
) -> (out: SocketStepOut)
    requires
        bank_wf(old(sockets)@),
        inside@.len() == old(sockets)@.len(),
        forall|i: int, j: int|
            spec_is_pickup(old(sockets)@, inside@, action, i) && spec_is_pickup(
                old(sockets)@,
                inside@,
                action,
                j,
            ) ==> i == j,
        forall|i: int, j: int|
            spec_is_dest(old(sockets)@, inside@, i) && spec_is_dest(old(sockets)@, inside@, j)
                ==> i == j,
    ensures
        final(sockets)@ == bank_ticked(old(sockets)@, inside@, action, delta_ms, *sense).0,
        out == bank_ticked(old(sockets)@, inside@, action, delta_ms, *sense).1,
        bank_wf(final(sockets)@),
{
    let ghost orig = sockets@;
    let n = sockets.len();
    let mut carrier: Option<usize> = None;
    let mut carrier_acted: bool = false;
    let mut dest: Option<usize> = None;
    let mut picked: Option<usize> = None;

    let mut i: usize = 0;
    while i < n
        invariant
            i <= n,
            n == orig.len(),
            inside@.len() == n,
            sockets@.len() == n,
            forall|j: int| i <= j < n ==> sockets@[j] == orig[j],
            forall|j: int| 0 <= j < i ==> sockets@[j] == phase1(orig[j], inside@[j], action),
            carrier matches Some(c) ==> 0 <= c < i && spec_is_carrier(orig, c as int),
            carrier is None ==> forall|j: int| 0 <= j < i ==> !spec_is_carrier(orig, j),
            carrier matches Some(c) ==> carrier_acted == (!orig[c as int].is_action_last && action),
            dest matches Some(d) ==> 0 <= d < i && spec_is_dest(orig, inside@, d as int),
            dest is None ==> forall|j: int| 0 <= j < i ==> !spec_is_dest(orig, inside@, j),
            picked matches Some(p) ==> 0 <= p < i && spec_is_pickup(orig, inside@, action, p as int),
            picked is None ==> forall|j: int|
                0 <= j < i ==> !spec_is_pickup(orig, inside@, action, j),
        decreases n - i,
    {
        let s = sockets[i];
        let acted = !s.is_action_last && action;
        match s.state {
            SocketState::CanCarryFrom => {
                if inside[i] && acted {
                    sockets.set(
                        i,
                        Socket { state: SocketState::Carrying, is_action_last: action, ..s },
                    );
                    picked = Some(i);
                } else {
                    sockets.set(i, Socket { is_action_last: action, ..s });
                }
            }
            SocketState::CanCarryTo => {
                if inside[i] {
                    dest = Some(i);
                }
                sockets.set(i, Socket { is_action_last: action, ..s });
            }
            SocketState::Carrying => {
                carrier = Some(i);
                carrier_acted = acted;
                sockets.set(i, Socket { is_action_last: action, ..s });
            }
            _ => {
                sockets.set(i, Socket { is_action_last: action, ..s });
            }
        }
        i = i + 1;
    }

    proof {
        assert(sockets@ =~= Seq::new(orig.len(), |j: int| phase1(orig[j], inside@[j], action)));
        match carrier {
            Some(c) => {
                assert(spec_is_carrier(orig, c as int));
                assert(spec_carrier(orig) == Some(c as int));
            }
            None => {
                assert(forall|j: int| !spec_is_carrier(orig, j));
                assert(spec_carrier(orig) is None);
            }
        }
        match dest {
            Some(d) => {
                assert(spec_is_dest(orig, inside@, d as int));
                assert(spec_dest(orig, inside@) == Some(d as int));
            }
            None => {
                assert(forall|j: int| !spec_is_dest(orig, inside@, j));
                assert(spec_dest(orig, inside@) is None);
            }
        }
        match picked {
            Some(p) => {
                assert(spec_is_pickup(orig, inside@, action, p as int));
                assert(spec_pickup(orig, inside@, action) == Some(p));
            }
            None => {
                assert(forall|j: int| !spec_is_pickup(orig, inside@, action, j));
                assert(spec_pickup(orig, inside@, action) is None);
            }
        }
    }

    let quiet = SocketStepOut {
        picked_up: picked,
        mark: None,
        unmark: None,
        connected: None,
        dropped: None,
    };
    let c = match carrier {
        None => {
            proof {
                let fin = sockets@;
                assert forall|x: int, y: int|
                    spec_is_carrier(fin, x) && spec_is_carrier(fin, y) implies x == y by {
                    assert(fin[x] == phase1(orig[x], inside@[x], action));
                    assert(fin[y] == phase1(orig[y], inside@[y], action));
                    assert(!spec_is_carrier(orig, x));
                    assert(!spec_is_carrier(orig, y));
                    assert(spec_is_pickup(orig, inside@, action, x));
                    assert(spec_is_pickup(orig, inside@, action, y));
                };
                assert(bank_wf(fin));
            }
            return quiet;
        },
        Some(c) => c,
    };

    let routing = resolve_wire(sense);
    let old_cam = sockets[c].camera;
    let rate = if routing.breaking {
        BREAK_RATE
    } else {
        MEND_RATE
    };
    let t = ramp::advance(sockets[c].break_timer, delta_ms, rate, routing.breaking, 0, UNIT);

    if routing.breaking && t == UNIT {
        sockets.set(
            c,
            Socket {
                state: SocketState::CanCarryFrom,
                is_action_last: action,
                break_timer: 0,
                camera: None,
            },
        );
        proof {
            let fin = sockets@;
            assert forall|x: int, y: int|
                spec_is_carrier(fin, x) && spec_is_carrier(fin, y) implies x == y by {
                if x != c as int {
                    assert(fin[x] == phase1(orig[x], inside@[x], action));
                    assert(!spec_is_carrier(orig, x));
                    assert(spec_is_pickup(orig, inside@, action, x));
                }
                if y != c as int {
                    assert(fin[y] == phase1(orig[y], inside@[y], action));
                    assert(!spec_is_carrier(orig, y));
                    assert(spec_is_pickup(orig, inside@, action, y));
                }
            };
            assert(bank_wf(fin));
        }
        return SocketStepOut { unmark: old_cam, dropped: Some(c), ..quiet };
    }

    if carrier_acted {
        match dest {
            Some(j) => {
                sockets.set(
                    c,
                    Socket {
                        state: SocketState::ConnectedTo(j),
                        is_action_last: action,
                        break_timer: t,
                        camera: None,
                    },
                );
                let target = sockets[j];
                sockets.set(j, Socket { state: SocketState::ConnectedFrom, ..target });
                proof {
                    let fin = sockets@;
                    assert forall|x: int, y: int|
                        spec_is_carrier(fin, x) && spec_is_carrier(fin, y) implies x == y by {
                        if x != c as int && x != j as int {
                            assert(fin[x] == phase1(orig[x], inside@[x], action));
                            assert(!spec_is_carrier(orig, x));
                            assert(spec_is_pickup(orig, inside@, action, x));
                        }
                        if y != c as int && y != j as int {
                            assert(fin[y] == phase1(orig[y], inside@[y], action));
                            assert(!spec_is_carrier(orig, y));
                            assert(spec_is_pickup(orig, inside@, action, y));
                        }
                    };
                    assert(bank_wf(fin));
                }
                return SocketStepOut { unmark: old_cam, connected: Some((c, j)), ..quiet };
            },
            None => {
                sockets.set(
                    c,
                    Socket {
                        state: SocketState::CanCarryFrom,
                        is_action_last: action,
                        break_timer: t,
                        camera: None,
                    },
                );
                proof {
                    let fin = sockets@;
                    assert forall|x: int, y: int|
                        spec_is_carrier(fin, x) && spec_is_carrier(fin, y) implies x == y by {
                        if x != c as int {
                            assert(fin[x] == phase1(orig[x], inside@[x], action));
                            assert(!spec_is_carrier(orig, x));
                            assert(spec_is_pickup(orig, inside@, action, x));
                        }
                        if y != c as int {
                            assert(fin[y] == phase1(orig[y], inside@[y], action));
                            assert(!spec_is_carrier(orig, y));
                            assert(spec_is_pickup(orig, inside@, action, y));
                        }
                    };
                    assert(bank_wf(fin));
                }
                return SocketStepOut { unmark: old_cam, ..quiet };
            },
        }
    }

    sockets.set(
        c,
        Socket {
            state: SocketState::Carrying,
            is_action_last: action,
            break_timer: t,
            camera: routing.bypass,
        },
    );
    let unmark = match (old_cam, routing.bypass) {
        (Some(a), Some(b)) => if a != b {
            Some(a)
        } else {
            None
        },
        (Some(a), None) => Some(a),
        _ => None,
    };
    proof {
        let fin = sockets@;
        assert forall|j: int|
            spec_is_pickup(orig, inside@, action, j) implies false by {
            assert(orig[j].is_action_last == orig[c as int].is_action_last);
        };
        assert forall|x: int, y: int|
            spec_is_carrier(fin, x) && spec_is_carrier(fin, y) implies x == y by {
            if x != c as int {
                assert(fin[x] == phase1(orig[x], inside@[x], action));
                assert(!spec_is_carrier(orig, x));
                assert(spec_is_pickup(orig, inside@, action, x));
            }
            if y != c as int {
                assert(fin[y] == phase1(orig[y], inside@[y], action));
                assert(!spec_is_carrier(orig, y));
                assert(spec_is_pickup(orig, inside@, action, y));
            }
        };
        assert(bank_wf(fin));
    }
    SocketStepOut { mark: routing.bypass, unmark, ..quiet }
}

} // verus!
