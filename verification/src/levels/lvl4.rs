//! The last puzzle level: four keypads and five switches drive five gates,
//! three fans and a camera; connecting the socket pair loops the game back.
//! A triggered camera restarts the level and outranks the advance.
use vstd::prelude::*;
use vstd::string::StringSliceAdditionalSpecFns;

use crate::code::Code;
use crate::discovery;
use crate::fan::Fan;
use crate::gate::Gate;
use crate::security_camera::SecurityCamera;
use crate::sequence::GameState;
use crate::sequence::Transition;
use crate::socket;
use crate::socket::Socket;
use crate::socket::SocketState;
use crate::switch::Switch;

use super::wiring;

verus! {

/// The keypad secrets this level is authored with.
pub const LEVEL4_SECRET_1: u32 = 9835;

pub const LEVEL4_SECRET_2: u32 = 152;

pub const LEVEL4_SECRET_3: u32 = 5489;

pub const LEVEL4_SECRET_4: u32 = 9845;

/// The named entities this level binds at load time.
#[derive(PartialEq, Eq, Structural, Clone, Copy, Debug)]
pub enum Level4Role {
    SocketStart,
    SocketEnd,
    Gate1,
    Gate2,
    Gate3,
    Gate4,
    Gate5,
    Switch1,
    Switch2,
    Switch3,
    Switch4,
    Switch5,
    Code1,
    Code2,
    Code3,
    Code4,
    Fan1,
    Fan2,
    Fan3,
    Cam1,
}

pub open spec fn spec_level4_role(name: Seq<u8>) -> Option<Level4Role> {
    if name == ("socket_start.004").spec_bytes() {
        Some(Level4Role::SocketStart)
    } else if name == ("socket_end.004").spec_bytes() {
        Some(Level4Role::SocketEnd)
    } else if name == ("gate.003").spec_bytes() {
        Some(Level4Role::Gate1)
    } else if name == ("gate.004").spec_bytes() {
        Some(Level4Role::Gate2)
    } else if name == ("gate.005").spec_bytes() {
        Some(Level4Role::Gate3)
    } else if name == ("gate.006").spec_bytes() {
        Some(Level4Role::Gate4)
    } else if name == ("gate.007").spec_bytes() {
        Some(Level4Role::Gate5)
    } else if name == ("switch.004").spec_bytes() {
        Some(Level4Role::Switch1)
    } else if name == ("switch.007").spec_bytes() {
        Some(Level4Role::Switch2)
    } else if name == ("switch.008").spec_bytes() {
        Some(Level4Role::Switch3)
    } else if name == ("switch.009").spec_bytes() {
        Some(Level4Role::Switch4)
    } else if name == ("switch.010").spec_bytes() {
        Some(Level4Role::Switch5)
    } else if name == ("code.003").spec_bytes() {
        Some(Level4Role::Code1)
    } else if name == ("code.006").spec_bytes() {
        Some(Level4Role::Code2)
    } else if name == ("code.007").spec_bytes() {
        Some(Level4Role::Code3)
    } else if name == ("code.008").spec_bytes() {
        Some(Level4Role::Code4)
    } else if name == ("fan.010").spec_bytes() {
        Some(Level4Role::Fan1)
    } else if name == ("fan.012").spec_bytes() {
        Some(Level4Role::Fan2)
    } else if name == ("fan.014").spec_bytes() {
        Some(Level4Role::Fan3)
    } else if name == ("camera.003").spec_bytes() {
        Some(Level4Role::Cam1)
    } else {
        None
    }
}

/// Bind a scene entity name to this level's roles.
pub fn level4_role(name: &[u8]) -> (r: Option<Level4Role>)
    ensures
        r == spec_level4_role(name@),
{
    if discovery::eq_bytes(name, ("socket_start.004").as_bytes()) {
        Some(Level4Role::SocketStart)
    } else if discovery::eq_bytes(name, ("socket_end.004").as_bytes()) {
        Some(Level4Role::SocketEnd)
    } else if discovery::eq_bytes(name, ("gate.003").as_bytes()) {
        Some(Level4Role::Gate1)
    } else if discovery::eq_bytes(name, ("gate.004").as_bytes()) {
        Some(Level4Role::Gate2)
    } else if discovery::eq_bytes(name, ("gate.005").as_bytes()) {
        Some(Level4Role::Gate3)
    } else if discovery::eq_bytes(name, ("gate.006").as_bytes()) {
        Some(Level4Role::Gate4)
    } else if discovery::eq_bytes(name, ("gate.007").as_bytes()) {
        Some(Level4Role::Gate5)
    } else if discovery::eq_bytes(name, ("switch.004").as_bytes()) {
        Some(Level4Role::Switch1)
    } else if discovery::eq_bytes(name, ("switch.007").as_bytes()) {
        Some(Level4Role::Switch2)
    } else if discovery::eq_bytes(name, ("switch.008").as_bytes()) {
        Some(Level4Role::Switch3)
    } else if discovery::eq_bytes(name, ("switch.009").as_bytes()) {
        Some(Level4Role::Switch4)
    } else if discovery::eq_bytes(name, ("switch.010").as_bytes()) {
        Some(Level4Role::Switch5)
    } else if discovery::eq_bytes(name, ("code.003").as_bytes()) {
        Some(Level4Role::Code1)
    } else if discovery::eq_bytes(name, ("code.006").as_bytes()) {
        Some(Level4Role::Code2)
    } else if discovery::eq_bytes(name, ("code.007").as_bytes()) {
        Some(Level4Role::Code3)
    } else if discovery::eq_bytes(name, ("code.008").as_bytes()) {
        Some(Level4Role::Code4)
    } else if discovery::eq_bytes(name, ("fan.010").as_bytes()) {
        Some(Level4Role::Fan1)
    } else if discovery::eq_bytes(name, ("fan.012").as_bytes()) {
        Some(Level4Role::Fan2)
    } else if discovery::eq_bytes(name, ("fan.014").as_bytes()) {
        Some(Level4Role::Fan3)
    } else if discovery::eq_bytes(name, ("camera.003").as_bytes()) {
        Some(Level4Role::Cam1)
    } else {
        None
    }
}

pub struct Level4 {
    pub gate1: Gate,
    pub gate2: Gate,
    pub gate3: Gate,
    pub gate4: Gate,
    pub gate5: Gate,
    pub switch1: Switch,
    pub switch2: Switch,
    pub switch3: Switch,
    pub switch4: Switch,
    pub switch5: Switch,
    pub code1: Code,
    pub code2: Code,
    pub code3: Code,
    pub code4: Code,
    pub fan1: Fan,
    pub fan2: Fan,
    pub fan3: Fan,
    pub cam1: SecurityCamera,
    /// The socket pair: the carried origin first, the destination second.
    pub sockets: Vec<Socket>,
}

impl Level4 {
    pub open spec fn wf(self) -> bool {
        &&& self.cam1.wf()
        &&& self.switch1.wf() && self.switch2.wf() && self.switch3.wf() && self.switch4.wf()
            && self.switch5.wf()
        &&& self.code1.wf() && self.code2.wf() && self.code3.wf() && self.code4.wf()
        &&& self.fan1.wf() && self.fan2.wf() && self.fan3.wf()
        &&& socket::bank_wf(self.sockets@)
        &&& self.sockets@.len() == 2
    }

    pub fn new() -> (l: Level4)
        ensures
            l.wf(),
            l.cam1.active && !l.cam1.triggered && !l.cam1.wire && l.cam1.timer == 0,
            !l.gate1.is_open && !l.gate2.is_open && !l.gate3.is_open && !l.gate4.is_open
                && !l.gate5.is_open,
            !l.switch1.clicked && !l.switch2.clicked && !l.switch3.clicked && !l.switch4.clicked
                && !l.switch5.clicked,
            l.code1.secret == LEVEL4_SECRET_1 && l.code2.secret == LEVEL4_SECRET_2
                && l.code3.secret == LEVEL4_SECRET_3 && l.code4.secret == LEVEL4_SECRET_4,
            l.fan1.spinning && l.fan2.spinning && l.fan3.spinning,
            l.sockets@.len() == 2,
            l.sockets@[0].state == SocketState::CanCarryFrom,
            l.sockets@[1].state == SocketState::CanCarryTo,
    {
        let mut sockets: Vec<Socket> = Vec::new();
        sockets.push(Socket::new(true));
        sockets.push(Socket::new(false));
        Level4 {
            gate1: Gate::new(),
            gate2: Gate::new(),
            gate3: Gate::new(),
            gate4: Gate::new(),
            gate5: Gate::new(),
            switch1: Switch::new(),
            switch2: Switch::new(),
            switch3: Switch::new(),
            switch4: Switch::new(),
            switch5: Switch::new(),
            code1: Code::new(LEVEL4_SECRET_1),
            code2: Code::new(LEVEL4_SECRET_2),
            code3: Code::new(LEVEL4_SECRET_3),
            code4: Code::new(LEVEL4_SECRET_4),
            fan1: Fan::new(),
            fan2: Fan::new(),
            fan3: Fan::new(),
            cam1: SecurityCamera::new(),
            sockets,
        }
    }

    /// Per-tick wiring: each activated keypad or switch opens its gate or
    /// stops its fan, the third switch disarms the camera, and the level
    /// decides at most one transition, the restart outranking the advance.
    #[verifier::spinoff_prover]
    pub fn process_sensors(&mut self) -> (t: Option<Transition>)
        requires
            old(self).sockets@.len() == 2,
        ensures
            final(self).gate1 == if old(self).code1.spec_activated() {
                old(self).gate1.spec_open()
            } else {
                old(self).gate1
            },
            final(self).gate3 == if old(self).code2.spec_activated() {
                old(self).gate3.spec_open()
            } else {
                old(self).gate3
            },
            final(self).fan2 == (Fan {
                spinning: old(self).fan2.spinning && !old(self).code3.spec_activated(),
                ..old(self).fan2
            }),
            final(self).gate2 == if old(self).code4.spec_activated() {
                old(self).gate2.spec_open()
            } else {
                old(self).gate2
            },
            final(self).fan1 == (Fan {
                spinning: old(self).fan1.spinning && !old(self).switch1.spec_activated(),
                ..old(self).fan1
            }),
            final(self).gate5 == if old(self).switch2.spec_activated() {
                old(self).gate5.spec_open()
            } else {
                old(self).gate5
            },
            final(self).cam1 == (SecurityCamera {
                active: old(self).cam1.active && !old(self).switch3.spec_activated(),
                ..old(self).cam1
            }),
            final(self).gate4 == if old(self).switch4.spec_activated() {
                old(self).gate4.spec_open()
            } else {
                old(self).gate4
            },
            final(self).fan3 == (Fan {
                spinning: old(self).fan3.spinning && !old(self).switch5.spec_activated(),
                ..old(self).fan3
            }),
            final(self).switch1 == old(self).switch1 && final(self).switch2 == old(self).switch2
                && final(self).switch3 == old(self).switch3 && final(self).switch4 == old(self).switch4 && final(self).switch5 == old(self).switch5,
            final(self).code1 == old(self).code1 && final(self).code2 == old(self).code2 && final(self).code3 == old(self).code3 && final(self).code4 == old(self).code4,
            final(self).sockets == old(self).sockets,
            t == if old(self).cam1.triggered {
                Some(Transition::Restart)
            } else if old(self).sockets@[1].spec_connected() {
                Some(Transition::Goto(GameState::Level2))
            } else {
                None::<Transition>
            },
            old(self).wf() ==> final(self).wf(),
    {
        wiring::open_when(self.code1.activated(), &mut self.gate1);
        wiring::open_when(self.code2.activated(), &mut self.gate3);
        wiring::stop_when(self.code3.activated(), &mut self.fan2);
        wiring::open_when(self.code4.activated(), &mut self.gate2);
        wiring::stop_when(self.switch1.activated(), &mut self.fan1);
        wiring::open_when(self.switch2.activated(), &mut self.gate5);
        wiring::disarm_when(self.switch3.activated(), &mut self.cam1);
        wiring::open_when(self.switch4.activated(), &mut self.gate4);
        wiring::stop_when(self.switch5.activated(), &mut self.fan3);
        if self.cam1.triggered {
            Some(Transition::Restart)
        } else if self.sockets[1].connected() {
            Some(Transition::Goto(GameState::Level2))
        } else {
            None
        }
    }
}

} // verus!
