//! The second puzzle level: a keypad stops the fan, a switch disarms the
//! camera, and connecting the socket pair advances the game. A triggered
//! camera restarts the level; the restart always outranks an advance decided
//! in the same tick.
use vstd::prelude::*;
use vstd::string::StringSliceAdditionalSpecFns;

use crate::code::Code;
use crate::discovery;
use crate::fan::Fan;
use crate::security_camera::SecurityCamera;
use crate::sequence::GameState;
use crate::sequence::Transition;
use crate::socket;
use crate::socket::Socket;
use crate::socket::SocketState;
use crate::switch::Switch;

use super::wiring;

verus! {

/// The keypad secret this level is authored with.
pub const LEVEL2_SECRET: u32 = 1824;

/// The named entities this level binds at load time.
#[derive(PartialEq, Eq, Structural, Clone, Copy, Debug)]
pub enum Level2Role {
    SocketStart,
    SocketEnd,
    Cam1,
    Switch1,
    Code1,
    Fan1,
}

pub open spec fn spec_level2_role(name: Seq<u8>) -> Option<Level2Role> {
    if name == ("socket_start.002").spec_bytes() {
        Some(Level2Role::SocketStart)
    } else if name == ("socket_end.002").spec_bytes() {
        Some(Level2Role::SocketEnd)
    } else if name == ("camera.002").spec_bytes() {
        Some(Level2Role::Cam1)
    } else if name == ("switch.003").spec_bytes() {
        Some(Level2Role::Switch1)
    } else if name == ("code.002").spec_bytes() {
        Some(Level2Role::Code1)
    } else if name == ("fan.002").spec_bytes() {
        Some(Level2Role::Fan1)
    } else {
        None
    }
}

/// Bind a scene entity name to this level's roles.
pub fn level2_role(name: &[u8]) -> (r: Option<Level2Role>)
    ensures
        r == spec_level2_role(name@),
{
    if discovery::eq_bytes(name, ("socket_start.002").as_bytes()) {
        Some(Level2Role::SocketStart)
    } else if discovery::eq_bytes(name, ("socket_end.002").as_bytes()) {
        Some(Level2Role::SocketEnd)
    } else if discovery::eq_bytes(name, ("camera.002").as_bytes()) {
        Some(Level2Role::Cam1)
    } else if discovery::eq_bytes(name, ("switch.003").as_bytes()) {
        Some(Level2Role::Switch1)
    } else if discovery::eq_bytes(name, ("code.002").as_bytes()) {
        Some(Level2Role::Code1)
    } else if discovery::eq_bytes(name, ("fan.002").as_bytes()) {
        Some(Level2Role::Fan1)
    } else {
        None
    }
}

pub struct Level2 {
    pub cam1: SecurityCamera,
    pub switch1: Switch,
    pub code1: Code,
    pub fan1: Fan,
    /// The socket pair: the carried origin first, the destination second.
    pub sockets: Vec<Socket>,
}

/// The transition this level's wiring decides on, given what it read.
pub open spec fn spec_level2_transition(cam_triggered: bool, end_connected: bool) -> Option<
    Transition,
> {
    if cam_triggered {
        Some(Transition::Restart)
    } else if end_connected {
        Some(Transition::Goto(GameState::Level3))
    } else {
        None
    }
}

impl Level2 {
    pub open spec fn wf(self) -> bool {
        &&& self.cam1.wf()
        &&& self.switch1.wf()
        &&& self.code1.wf()
        &&& self.fan1.wf()
        &&& socket::bank_wf(self.sockets@)
        &&& self.sockets@.len() == 2
    }

    pub fn new() -> (l: Level2)
        ensures
            l.wf(),
            l.cam1.active && !l.cam1.triggered && !l.cam1.wire && l.cam1.timer == 0,
            !l.switch1.clicked && l.switch1.timer == 0,
            l.code1.state == crate::code::CodeState::Idle,
            l.code1.secret == LEVEL2_SECRET,
            l.code1.input@.len() == 0,
            l.fan1.spinning,
            l.sockets@.len() == 2,
            l.sockets@[0].state == SocketState::CanCarryFrom,
            l.sockets@[1].state == SocketState::CanCarryTo,
    {
        let mut sockets: Vec<Socket> = Vec::new();
        sockets.push(Socket::new(true));
        sockets.push(Socket::new(false));
        Level2 {
            cam1: SecurityCamera::new(),
            switch1: Switch::new(),
            code1: Code::new(LEVEL2_SECRET),
            fan1: Fan::new(),
            sockets,
        }
    }

    /// Per-tick wiring: the solved keypad stops the fan, the switch disarms
    /// the camera, and the level decides at most one transition, the restart
    /// outranking the advance.
    pub fn process_sensors(&mut self) -> (t: Option<Transition>)
        requires
            old(self).sockets@.len() == 2,
        ensures
            final(self).fan1 == (Fan {
                spinning: old(self).fan1.spinning && !old(self).code1.spec_activated(),
                ..old(self).fan1
            }),
            final(self).cam1 == (SecurityCamera {
                active: old(self).cam1.active && !old(self).switch1.spec_activated(),
                ..old(self).cam1
            }),
            final(self).switch1 == old(self).switch1,
            final(self).code1 == old(self).code1,
            final(self).sockets == old(self).sockets,
            t == spec_level2_transition(
                old(self).cam1.triggered,
                old(self).sockets@[1].spec_connected(),
            ),
            old(self).wf() ==> final(self).wf(),
    {
        wiring::stop_when(self.code1.activated(), &mut self.fan1);
        wiring::disarm_when(self.switch1.activated(), &mut self.cam1);
        if self.cam1.triggered {
            Some(Transition::Restart)
        } else if self.sockets[1].connected() {
            Some(Transition::Goto(GameState::Level3))
        } else {
            None
        }
    }
}

} // verus!
