//! A fan: while spinning it pushes the player whenever the player floats in
//! its pusher volume; once a level wiring stops it, its spin factor fades out.
use vstd::prelude::*;

use crate::player::PushAccum;
use crate::ramp;
use crate::ramp::UNIT;

verus! {

/// The spin factor fades at 1.0/s while the fan is off.
pub const SPINDOWN_RATE: u64 = 1000;

pub struct Fan {
    /// Whether the fan is running; level wirings may switch this off.
    pub spinning: bool,
    /// Spin factor in `[0, UNIT]` micro-steps, scaling the visual rotation
    /// speed; full while spinning, fading once stopped.
    pub factor: u64,
}

impl Fan {
    pub open spec fn wf(self) -> bool {
        self.factor <= UNIT
    }

    /// The state after one tick: the spin factor fades only while stopped.
    pub open spec fn ticked(self, delta_ms: u64) -> Fan {
        if self.spinning {
            self
        } else {
            Fan { factor: ramp::ramp_step(self.factor, delta_ms, SPINDOWN_RATE, false, 0, UNIT) as u64, ..self }
        }
    }

    pub fn new() -> (f: Fan)
        ensures
            f.wf(),
            f.spinning,
            f.factor == UNIT,
    {
        Fan { spinning: true, factor: UNIT }
    }

    /// One simulation tick.
    pub fn tick(&mut self, delta_ms: u64)
        requires
            old(self).wf(),
        ensures
            final(self).wf(),
            *final(self) == old(self).ticked(delta_ms),
    {
        if !self.spinning {
            self.factor = ramp::advance(self.factor, delta_ms, SPINDOWN_RATE, false, 0, UNIT);
        }
    }

    /// Contribute this fan's force to the shared push accumulator: the fixed
    /// impulse `(dx, dy)` (the fan's facing, scaled by the physics
    /// collaborator) is added exactly when the fan spins and the player is
    /// inside its pusher volume.
    pub fn push(&self, inside: bool, dx: i64, dy: i64, accum: &mut PushAccum)
        requires
            i64::MIN <= old(accum).x + dx <= i64::MAX,
            i64::MIN <= old(accum).y + dy <= i64::MAX,
        ensures
            final(accum).x == old(accum).x + if self.spinning && inside {
                dx as int
            } else {
                0
            },
            final(accum).y == old(accum).y + if self.spinning && inside {
                dy as int
            } else {
                0
            },
    {
        if self.spinning && inside {
            accum.contribute(dx, dy);
        }
    }
}

} // verus!
