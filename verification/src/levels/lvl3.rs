//! The third puzzle level: two keypads and a switch stop three fans, another
//! switch opens its gate, and connecting the socket pair advances the game.
use vstd::prelude::*;
use vstd::string::StringSliceAdditionalSpecFns;

use crate::code::Code;
use crate::discovery;
use crate::fan::Fan;
use crate::gate::Gate;
use crate::sequence::GameState;
use crate::sequence::Transition;
use crate::socket;
use crate::socket::Socket;
use crate::socket::SocketState;
use crate::switch::Switch;

use super::wiring;

verus! {

/// The keypad secrets this level is authored with.
pub const LEVEL3_SECRET_1: u32 = 3028;

pub const LEVEL3_SECRET_2: u32 = 8824;

/// The named entities this level binds at load time.
#[derive(PartialEq, Eq, Structural, Clone, Copy, Debug)]
pub enum Level3Role {
    SocketStart,
    SocketEnd,
    Gate1,
    Switch1,
    Switch2,
    Code1,
    Code2,
    Fan1,
    Fan2,
    Fan3,
}

pub open spec fn spec_level3_role(name: Seq<u8>) -> Option<Level3Role> {
    if name == ("socket_start.003").spec_bytes() {
        Some(Level3Role::SocketStart)
    } else if name == ("socket_end.003").spec_bytes() {
        Some(Level3Role::SocketEnd)
    } else if name == ("gate.002").spec_bytes() {
        Some(Level3Role::Gate1)
    } else if name == ("switch.005").spec_bytes() {
        Some(Level3Role::Switch1)
    } else if name == ("switch.006").spec_bytes() {
        Some(Level3Role::Switch2)
    } else if name == ("code.004").spec_bytes() {
        Some(Level3Role::Code1)
    } else if name == ("code.005").spec_bytes() {
        Some(Level3Role::Code2)
    } else if name == ("fan.004").spec_bytes() {
        Some(Level3Role::Fan1)
    } else if name == ("fan.006").spec_bytes() {
        Some(Level3Role::Fan2)
    } else if name == ("fan.008").spec_bytes() {
        Some(Level3Role::Fan3)
    } else {
        None
    }
}

/// Bind a scene entity name to this level's roles.
pub fn level3_role(name: &[u8]) -> (r: Option<Level3Role>)
    ensures
        r == spec_level3_role(name@),
{
    if discovery::eq_bytes(name, ("socket_start.003").as_bytes()) {
        Some(Level3Role::SocketStart)
    } else if discovery::eq_bytes(name, ("socket_end.003").as_bytes()) {
        Some(Level3Role::SocketEnd)
    } else if discovery::eq_bytes(name, ("gate.002").as_bytes()) {
        Some(Level3Role::Gate1)
    } else if discovery::eq_bytes(name, ("switch.005").as_bytes()) {
        Some(Level3Role::Switch1)
    } else if discovery::eq_bytes(name, ("switch.006").as_bytes()) {
        Some(Level3Role::Switch2)
    } else if discovery::eq_bytes(name, ("code.004").as_bytes()) {
        Some(Level3Role::Code1)
    } else if discovery::eq_bytes(name, ("code.005").as_bytes()) {
        Some(Level3Role::Code2)
    } else if discovery::eq_bytes(name, ("fan.004").as_bytes()) {
        Some(Level3Role::Fan1)
    } else if discovery::eq_bytes(name, ("fan.006").as_bytes()) {
        Some(Level3Role::Fan2)
    } else if discovery::eq_bytes(name, ("fan.008").as_bytes()) {
        Some(Level3Role::Fan3)
    } else {
        None
    }
}

pub struct Level3 {
    pub gate1: Gate,
    pub switch1: Switch,
    pub switch2: Switch,
    pub code1: Code,
    pub code2: Code,
    pub fan1: Fan,
    pub fan2: Fan,
    pub fan3: Fan,
    /// The socket pair: the carried origin first, the destination second.
    pub sockets: Vec<Socket>,
}

impl Level3 {
    pub open spec fn wf(self) -> bool {
        &&& self.switch1.wf()
        &&& self.switch2.wf()
        &&& self.code1.wf()
        &&& self.code2.wf()
        &&& self.fan1.wf()
        &&& self.fan2.wf()
        &&& self.fan3.wf()
        &&& socket::bank_wf(self.sockets@)
        &&& self.sockets@.len() == 2
    }

    pub fn new() -> (l: Level3)
        ensures
            l.wf(),
            !l.gate1.is_open && !l.gate1.start_animation && !l.gate1.passable,
            !l.switch1.clicked && !l.switch2.clicked,
            l.code1.state == crate::code::CodeState::Idle && l.code1.secret == LEVEL3_SECRET_1,
            l.code2.state == crate::code::CodeState::Idle && l.code2.secret == LEVEL3_SECRET_2,
            l.fan1.spinning && l.fan2.spinning && l.fan3.spinning,
            l.sockets@.len() == 2,
            l.sockets@[0].state == SocketState::CanCarryFrom,
            l.sockets@[1].state == SocketState::CanCarryTo,
    {
        let mut sockets: Vec<Socket> = Vec::new();
        sockets.push(Socket::new(true));
        sockets.push(Socket::new(false));
        Level3 {
            gate1: Gate::new(),
            switch1: Switch::new(),
            switch2: Switch::new(),
            code1: Code::new(LEVEL3_SECRET_1),
            code2: Code::new(LEVEL3_SECRET_2),
            fan1: Fan::new(),
            fan2: Fan::new(),
            fan3: Fan::new(),
            sockets,
        }
    }

    /// Per-tick wiring: each solved keypad stops its fan, the first switch
    /// opens its gate, the second stops the third fan, and connecting the
    /// socket pair advances the game.
    pub fn process_sensors(&mut self) -> (t: Option<Transition>)
        requires
            old(self).sockets@.len() == 2,
        ensures
            final(self).fan1 == (Fan {
                spinning: old(self).fan1.spinning && !old(self).code1.spec_activated(),
                ..old(self).fan1
            }),
            final(self).fan2 == (Fan {
                spinning: old(self).fan2.spinning && !old(self).code2.spec_activated(),
                ..old(self).fan2
            }),
            final(self).fan3 == (Fan {
                spinning: old(self).fan3.spinning && !old(self).switch2.spec_activated(),
                ..old(self).fan3
            }),
            final(self).gate1 == if old(self).switch1.spec_activated() {
                old(self).gate1.spec_open()
            } else {
                old(self).gate1
            },
            final(self).switch1 == old(self).switch1,
            final(self).switch2 == old(self).switch2,
            final(self).code1 == old(self).code1,
            final(self).code2 == old(self).code2,
            final(self).sockets == old(self).sockets,
            t == if old(self).sockets@[1].spec_connected() {
                Some(Transition::Goto(GameState::Level4))
            } else {
                None::<Transition>
            },
            old(self).wf() ==> final(self).wf(),
    {
        wiring::stop_when(self.code1.activated(), &mut self.fan1);
        wiring::stop_when(self.code2.activated(), &mut self.fan2);
        wiring::open_when(self.switch1.activated(), &mut self.gate1);
        wiring::stop_when(self.switch2.activated(), &mut self.fan3);
        if self.sockets[1].connected() {
            Some(Transition::Goto(GameState::Level4))
        } else {
            None
        }
    }
}

} // verus!
