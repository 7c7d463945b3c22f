//! The first full puzzle level: a camera watched over by a switch and a
//! keypad, a gate wired to a second switch, and one socket pair.
use vstd::prelude::*;
use vstd::string::StringSliceAdditionalSpecFns;

use crate::code::Code;
use crate::discovery;
use crate::gate::Gate;
use crate::security_camera::SecurityCamera;
use crate::socket;
use crate::socket::Socket;
use crate::socket::SocketState;
use crate::switch::Switch;

verus! {

/// The keypad secret this level is authored with.
pub const LEVEL1_SECRET: u32 = 1234;

/// The named entities this level binds at load time.
#[derive(PartialEq, Eq, Structural, Clone, Copy, Debug)]
pub enum Level1Role {
    Cam1,
    Switch1,
    Switch2,
    Gate1,
    Code1,
    Socket1,
    Socket2,
}

pub open spec fn spec_level1_role(name: Seq<u8>) -> Option<Level1Role> {
    if name == ("camera.1").spec_bytes() {
        Some(Level1Role::Cam1)
    } else if name == ("switch.1").spec_bytes() {
        Some(Level1Role::Switch1)
    } else if name == ("switch.2").spec_bytes() {
        Some(Level1Role::Switch2)
    } else if name == ("gate.1").spec_bytes() {
        Some(Level1Role::Gate1)
    } else if name == ("code.1").spec_bytes() {
        Some(Level1Role::Code1)
    } else if name == ("socket_start.1").spec_bytes() {
        Some(Level1Role::Socket1)
    } else if name == ("socket_end.1").spec_bytes() {
        Some(Level1Role::Socket2)
    } else {
        None
    }
}

/// Bind a scene entity name to this level's roles.
pub fn level1_role(name: &[u8]) -> (r: Option<Level1Role>)
    ensures
        r == spec_level1_role(name@),
{
    if discovery::eq_bytes(name, ("camera.1").as_bytes()) {
        Some(Level1Role::Cam1)
    } else if discovery::eq_bytes(name, ("switch.1").as_bytes()) {
        Some(Level1Role::Switch1)
    } else if discovery::eq_bytes(name, ("switch.2").as_bytes()) {
        Some(Level1Role::Switch2)
    } else if discovery::eq_bytes(name, ("gate.1").as_bytes()) {
        Some(Level1Role::Gate1)
    } else if discovery::eq_bytes(name, ("code.1").as_bytes()) {
        Some(Level1Role::Code1)
    } else if discovery::eq_bytes(name, ("socket_start.1").as_bytes()) {
        Some(Level1Role::Socket1)
    } else if discovery::eq_bytes(name, ("socket_end.1").as_bytes()) {
        Some(Level1Role::Socket2)
    } else {
        None
    }
}

pub struct Level1 {
    pub cam1: SecurityCamera,
    pub switch1: Switch,
    pub switch2: Switch,
    pub gate1: Gate,
    pub code1: Code,
    /// The socket pair: the carried origin first, the destination second.
    pub sockets: Vec<Socket>,
}

impl Level1 {
    pub open spec fn wf(self) -> bool {
        &&& self.cam1.wf()
        &&& self.switch1.wf()
        &&& self.switch2.wf()
        &&& self.code1.wf()
        &&& socket::bank_wf(self.sockets@)
        &&& self.sockets@.len() == 2
    }

    pub fn new() -> (l: Level1)
        ensures
            l.wf(),
            l.cam1.active && !l.cam1.triggered && !l.cam1.wire && l.cam1.timer == 0,
            !l.switch1.clicked && l.switch1.timer == 0,
            !l.switch2.clicked && l.switch2.timer == 0,
            !l.gate1.is_open && !l.gate1.start_animation && !l.gate1.passable,
            l.code1.state == crate::code::CodeState::Idle,
            l.code1.secret == LEVEL1_SECRET,
            l.code1.input@.len() == 0,
            l.sockets@.len() == 2,
            l.sockets@[0].state == SocketState::CanCarryFrom,
            l.sockets@[1].state == SocketState::CanCarryTo,
    {
        let mut sockets: Vec<Socket> = Vec::new();
        sockets.push(Socket::new(true));
        sockets.push(Socket::new(false));
        Level1 {
            cam1: SecurityCamera::new(),
            switch1: Switch::new(),
            switch2: Switch::new(),
            gate1: Gate::new(),
            code1: Code::new(LEVEL1_SECRET),
            sockets,
        }
    }

    /// Per-tick wiring: the camera watches unless the first switch or the
    /// keypad is solved, and the second switch opens its gate.
    pub fn process_sensors(&mut self)
        ensures
            final(self).cam1 == (SecurityCamera {
                active: !(old(self).switch1.spec_activated() || old(self).code1.spec_activated()),
                ..old(self).cam1
            }),
            final(self).gate1 == if old(self).switch2.spec_activated() {
                old(self).gate1.spec_open()
            } else {
                old(self).gate1
            },
            final(self).switch1 == old(self).switch1,
            final(self).switch2 == old(self).switch2,
            final(self).code1 == old(self).code1,
            final(self).sockets == old(self).sockets,
            old(self).wf() ==> final(self).wf(),
    {
        self.cam1.active = !(self.switch1.activated() || self.code1.activated());
        if self.switch2.activated() {
            self.gate1.open();
        }
    }
}

} // verus!
