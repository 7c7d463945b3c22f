//! The cross-element commands a level wiring can issue, one element at a
//! time: open a gate, stop a fan, disarm a camera, each guarded by the
//! activation of the element wired to it.
use vstd::prelude::*;

use crate::fan::Fan;
use crate::gate::Gate;
use crate::security_camera::SecurityCamera;

verus! {

/// Open a gate when its wired trigger is activated.
pub fn open_when(activated: bool, gate: &mut Gate)
    ensures
        *final(gate) == if activated {
            old(gate).spec_open()
        } else {
            *old(gate)
        },
{
    if activated {
        gate.open();
    }
}

/// Stop the fan when its wired trigger is activated.
pub fn stop_when(activated: bool, fan: &mut Fan)
    ensures
        *final(fan) == (Fan { spinning: old(fan).spinning && !activated, ..*old(fan) }),
{
    if activated {
        fan.spinning = false;
    }
}

/// Disarm the camera when its wired trigger is activated.
pub fn disarm_when(activated: bool, cam: &mut SecurityCamera)
    ensures
        *final(cam) == (SecurityCamera { active: old(cam).active && !activated, ..*old(cam) }),
{
    if activated {
        cam.active = false;
    }
}

} // verus!
