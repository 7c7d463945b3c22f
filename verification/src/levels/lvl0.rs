//! The introductory level: a single hand-wired floor pusher and the lever
//! that shuts it off, predating the general puzzle elements.
use vstd::prelude::*;
use vstd::string::StringSliceAdditionalSpecFns;

use crate::discovery;
use crate::player::Direction;
use crate::player::PushAccum;

verus! {

/// Upward force of the floor pusher, in milli-units.
pub const PUSHER_FORCE_Y: i64 = 15000;

/// The named entities this level binds at load time.
#[derive(PartialEq, Eq, Structural, Clone, Copy, Debug)]
pub enum Level0Role {
    /// The pushing volume `pusher1`.
    Pusher1,
    /// The lever's sensor `lever1_sensor`.
    Lever1Sensor,
    /// The lever body `lever1`, the target of the pull animation.
    Lever1,
    /// The fan model `fan1`, the target of the looping spin animation.
    Fan1,
    /// The looping background animation target `submarine_lights`.
    SubmarineLights,
    /// The painted instruction text `text.1`.
    Text1,
}

pub open spec fn spec_level0_role(name: Seq<u8>) -> Option<Level0Role> {
    if name == ("pusher1").spec_bytes() {
        Some(Level0Role::Pusher1)
    } else if name == ("lever1_sensor").spec_bytes() {
        Some(Level0Role::Lever1Sensor)
    } else if name == ("lever1").spec_bytes() {
        Some(Level0Role::Lever1)
    } else if name == ("fan1").spec_bytes() {
        Some(Level0Role::Fan1)
    } else if name == ("submarine_lights").spec_bytes() {
        Some(Level0Role::SubmarineLights)
    } else if name == ("text.1").spec_bytes() {
        Some(Level0Role::Text1)
    } else {
        None
    }
}

/// Bind a scene entity name to this level's roles.
pub fn level0_role(name: &[u8]) -> (r: Option<Level0Role>)
    ensures
        r == spec_level0_role(name@),
{
    if discovery::eq_bytes(name, ("pusher1").as_bytes()) {
        Some(Level0Role::Pusher1)
    } else if discovery::eq_bytes(name, ("lever1_sensor").as_bytes()) {
        Some(Level0Role::Lever1Sensor)
    } else if discovery::eq_bytes(name, ("lever1").as_bytes()) {
        Some(Level0Role::Lever1)
    } else if discovery::eq_bytes(name, ("fan1").as_bytes()) {
        Some(Level0Role::Fan1)
    } else if discovery::eq_bytes(name, ("submarine_lights").as_bytes()) {
        Some(Level0Role::SubmarineLights)
    } else if discovery::eq_bytes(name, ("text.1").as_bytes()) {
        Some(Level0Role::Text1)
    } else {
        None
    }
}

pub struct Level0 {
    /// Whether the floor pusher still blows the player upward.
    pub pusher1_active: bool,
    /// Latched once the lever pull animation has been started.
    pub lever1_clicked: bool,
}

impl Level0 {
    pub fn new() -> (l: Level0)
        ensures
            l.pusher1_active,
            !l.lever1_clicked,
    {
        Level0 { pusher1_active: true, lever1_clicked: false }
    }

    /// Per-tick wiring: the pusher (while active) feeds the shared push
    /// accumulator, and pulling the lever while facing left shuts it off.
    /// The push contribution reads the pusher state as of the start of the
    /// tick, so a lever pull acts from the next tick on.
    pub fn process_sensors(
        &mut self,
        touching_pusher: bool,
        touching_lever: bool,
        direction: Direction,
        is_action: bool,
        push: &mut PushAccum,
    )
        ensures
            final(self).lever1_clicked == old(self).lever1_clicked,
            final(self).pusher1_active == (old(self).pusher1_active && !(touching_lever && direction
                == Direction::Left && is_action)),
            final(push).x == 0,
            final(push).y == if old(self).pusher1_active && touching_pusher {
                PUSHER_FORCE_Y as int
            } else {
                0
            },
    {
        push.clear();
        if touching_pusher && self.pusher1_active {
            push.contribute(0, PUSHER_FORCE_Y);
        }
        if touching_lever && direction == Direction::Left && is_action {
            self.pusher1_active = false;
        }
    }

    /// Whether the lever pull animation should start this tick: exactly once,
    /// on the first tick after the pusher goes off.
    pub fn lever_animation_start(&mut self) -> (start: bool)
        ensures
            final(self).pusher1_active == old(self).pusher1_active,
            start == (!old(self).pusher1_active && !old(self).lever1_clicked),
            final(self).lever1_clicked == (old(self).lever1_clicked || !old(self).pusher1_active),
    {
        if !self.pusher1_active && !self.lever1_clicked {
            self.lever1_clicked = true;
            true
        } else {
            false
        }
    }

    /// Whether the floor fan animation should be looping.
    pub fn fan_running(&self) -> (r: bool)
        ensures
            r == self.pusher1_active,
    {
        self.pusher1_active
    }
}

} // verus!
