//! A security camera: while it is active and the player is inside its sensor
//! cone (or a carried wire is routed through it), a detection ramp rises
//! slowly; otherwise it falls quickly. A full ramp trips the alarm for good.
use vstd::prelude::*;

use crate::ramp;
use crate::ramp::UNIT;

verus! {

/// Detection rises at 0.2/s while watched, in micro-steps per millisecond.
pub const DETECT_RATE: u64 = 200;

/// Detection falls at 1.0/s otherwise.
pub const RELAX_RATE: u64 = 1000;

/// The camera cone's visual fade follows `active` at 2.0/s.
pub const FADE_RATE: u64 = 2000;

pub struct SecurityCamera {
    /// Whether the camera is watching; level wirings may switch this off.
    pub active: bool,
    /// Latched once detection saturates; only a level restart clears it.
    pub triggered: bool,
    /// Set while a carried socket wire is routed through this camera's cone.
    pub wire: bool,
    /// Detection progress in `[0, UNIT]` micro-steps.
    pub timer: u64,
    /// Cone fade-in progress in `[0, UNIT]` micro-steps, driven by `active`.
    pub cone_visibility: u64,
}

impl SecurityCamera {
    pub open spec fn wf(self) -> bool {
        &&& self.timer <= UNIT
        &&& self.cone_visibility <= UNIT
        &&& (self.triggered <==> self.timer == UNIT)
    }

    /// The state after one tick, given whether the player is inside the
    /// sensor volume. A triggered camera no longer evaluates detection; the
    /// cone fade keeps following `active` either way.
    pub open spec fn ticked(self, inside: bool, delta_ms: u64) -> SecurityCamera {
        let cone = ramp::ramp_step(self.cone_visibility, delta_ms, FADE_RATE, self.active, 0, UNIT) as u64;
        if self.triggered {
            SecurityCamera { cone_visibility: cone, ..self }
        } else {
            let watched = (inside || self.wire) && self.active;
            let timer = if watched {
                ramp::ramp_step(self.timer, delta_ms, DETECT_RATE, true, 0, UNIT) as u64
            } else {
                ramp::ramp_step(self.timer, delta_ms, RELAX_RATE, false, 0, UNIT) as u64
            };
            SecurityCamera { triggered: timer == UNIT, timer, cone_visibility: cone, ..self }
        }
    }

    pub fn new() -> (c: SecurityCamera)
        ensures
            c.wf(),
            c.active,
            !c.triggered,
            !c.wire,
            c.timer == 0,
            c.cone_visibility == 0,
    {
        SecurityCamera { active: true, triggered: false, wire: false, timer: 0, cone_visibility: 0 }
    }

    /// One simulation tick.
    pub fn tick(&mut self, inside: bool, delta_ms: u64)
        requires
            old(self).wf(),
        ensures
            final(self).wf(),
            *final(self) == old(self).ticked(inside, delta_ms),
    {
        self.cone_visibility = ramp::advance(self.cone_visibility, delta_ms, FADE_RATE, self.active, 0, UNIT);
        if self.triggered {
            return ;
        }
        let watched = (inside || self.wire) && self.active;
        if watched {
            self.timer = ramp::advance(self.timer, delta_ms, DETECT_RATE, true, 0, UNIT);
            if self.timer == UNIT {
                self.triggered = true;
            }
        } else {
            self.timer = ramp::advance(self.timer, delta_ms, RELAX_RATE, false, 0, UNIT);
        }
    }

    /// Where the cone color sits on its two ramps, as a pair of fixed-point
    /// blend factors in `[0, UNIT]`: the first moves cyan toward yellow over
    /// the first third of detection, the second moves that toward red over
    /// the remaining two thirds.
    pub fn cone_blend(&self) -> (r: (u64, u64))
        requires
            self.wf(),
        ensures
            r.0 == if 3 * self.timer >= UNIT {
                UNIT as int
            } else {
                3 * self.timer
            },
            r.1 == if 3 * self.timer <= UNIT {
                0
            } else {
                (3 * self.timer - UNIT) / 2
            },
            r.0 <= UNIT,
            r.1 <= UNIT,
    {
        let scaled = 3 * self.timer;
        let first = if scaled >= UNIT {
            UNIT
        } else {
            scaled
        };
        let second = if scaled <= UNIT {
            0
        } else {
            (scaled - UNIT) / 2
        };
        (first, second)
    }
}

/// The state after a run of ticks with the player held inside the cone.
pub open spec fn camera_watched_run(c: SecurityCamera, deltas: Seq<u64>) -> SecurityCamera
    decreases deltas.len(),
{
    if deltas.len() == 0 {
        c
    } else {
        camera_watched_run(c.ticked(true, deltas[0]), deltas.drop_first())
    }
}

/// The alarm latch is monotonic: no tick ever clears `triggered`, whatever
/// `active` and `wire` have been set to in the meantime.
pub proof fn lemma_trigger_monotonic(c: SecurityCamera, inside: bool, delta_ms: u64)
    ensures
        c.triggered ==> c.ticked(inside, delta_ms).triggered,
{
}

/// An active camera watching the player triggers once detection has had
/// `UNIT / DETECT_RATE` milliseconds (five seconds) to accumulate, and is
/// triggered from then on.
pub proof fn lemma_watched_camera_triggers(c: SecurityCamera, deltas: Seq<u64>)
    requires
        c.wf(),
        c.active,
        DETECT_RATE * total_ms(deltas) + c.timer >= UNIT,
    ensures
        camera_watched_run(c, deltas).triggered,
    decreases deltas.len(),
{
    if deltas.len() == 0 {
    } else {
        let c1 = c.ticked(true, deltas[0]);
        assert(c1.wf());
        assert(total_ms(deltas) == deltas[0] + total_ms(deltas.drop_first()));
        lemma_total_ms_nonneg(deltas.drop_first());
        vstd::arithmetic::mul::lemma_mul_is_distributive_add(
            DETECT_RATE as int,
            deltas[0] as int,
            total_ms(deltas.drop_first()),
        );
        if !c1.triggered {
            assert(c1.timer == c.timer + DETECT_RATE * deltas[0]);
        }
        lemma_watched_camera_triggers(c1, deltas.drop_first());
    }
}

pub open spec fn total_ms(deltas: Seq<u64>) -> int
    decreases deltas.len(),
{
    if deltas.len() == 0 {
        0
    } else {
        deltas[0] + total_ms(deltas.drop_first())
    }
}

pub proof fn lemma_total_ms_nonneg(deltas: Seq<u64>)
    ensures
        total_ms(deltas) >= 0,
    decreases deltas.len(),
{
    if deltas.len() > 0 {
        lemma_total_ms_nonneg(deltas.drop_first());
    }
}

} // verus!
