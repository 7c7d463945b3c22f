//! A wall switch: the player swims into its sensor volume and presses the
//! action button. The click latches forever; a ramp then runs toward full
//! scale and the switch counts as activated from half scale on.
use vstd::prelude::*;

use crate::ramp;
use crate::ramp::UNIT;

verus! {

/// Ramp rate of the pull timer, in micro-steps per millisecond (2.0/s).
pub const PULL_RATE: u64 = 2000;

/// The pull timer value from which the switch counts as activated (0.5).
pub const ACTIVATION_THRESHOLD: u64 = 500000;

pub struct Switch {
    /// Latched once the player has pressed the action button inside the sensor.
    pub clicked: bool,
    /// Pull progress in `[0, UNIT]` micro-steps; rises only while `clicked`.
    pub timer: u64,
}

impl Switch {
    pub open spec fn wf(self) -> bool {
        self.timer <= UNIT
    }

    pub open spec fn spec_activated(self) -> bool {
        self.timer >= ACTIVATION_THRESHOLD
    }

    /// The state after one tick with the given sensor and input snapshot.
    pub open spec fn ticked(self, inside: bool, action: bool, delta_ms: u64) -> Switch {
        let clicked = self.clicked || (inside && action);
        let timer = if clicked {
            ramp::ramp_step(self.timer, delta_ms, PULL_RATE, true, 0, UNIT) as u64
        } else {
            self.timer
        };
        Switch { clicked, timer }
    }

    pub fn new() -> (s: Switch)
        ensures
            s.wf(),
            !s.clicked,
            s.timer == 0,
            !s.spec_activated(),
    {
        Switch { clicked: false, timer: 0 }
    }

    pub fn activated(&self) -> (r: bool)
        ensures
            r == self.spec_activated(),
    {
        self.timer >= ACTIVATION_THRESHOLD
    }

    /// One simulation tick. Returns true exactly when the pull animation
    /// should start: on the tick where the click first latches, never again.
    pub fn tick(&mut self, inside: bool, action: bool, delta_ms: u64) -> (start_animation: bool)
        requires
            old(self).wf(),
        ensures
            final(self).wf(),
            *final(self) == old(self).ticked(inside, action, delta_ms),
            start_animation == (inside && action && !old(self).clicked),
    {
        let clicked_now = inside && action;
        let start_animation = clicked_now && !self.clicked;
        self.clicked = self.clicked || clicked_now;
        if self.clicked {
            self.timer = ramp::advance(self.timer, delta_ms, PULL_RATE, true, 0, UNIT);
        }
        start_animation
    }

    /// Whether the red (not yet activated) or green (activated) screen of the
    /// switch should be shown.
    pub fn screen_visible(&self, green: bool) -> (r: bool)
        ensures
            r == if green {
                self.spec_activated()
            } else {
                !self.spec_activated()
            },
    {
        if green {
            self.activated()
        } else {
            !self.activated()
        }
    }
}

/// The click is a latch and activation is monotonic: a tick never clears
/// `clicked`, and an activated switch stays activated.
pub proof fn lemma_switch_monotonic(s: Switch, inside: bool, action: bool, delta_ms: u64)
    requires
        s.wf(),
    ensures
        s.ticked(inside, action, delta_ms).wf(),
        s.clicked ==> s.ticked(inside, action, delta_ms).clicked,
        s.spec_activated() ==> s.ticked(inside, action, delta_ms).spec_activated(),
{
}

/// The state after a run of ticks with arbitrary sensor and input snapshots.
pub open spec fn switch_run(s: Switch, inputs: Seq<(bool, bool, u64)>) -> Switch
    decreases inputs.len(),
{
    if inputs.len() == 0 {
        s
    } else {
        switch_run(s.ticked(inputs[0].0, inputs[0].1, inputs[0].2), inputs.drop_first())
    }
}

/// The latch and the activation hold for the switch's whole lifetime: no run
/// of ticks, whatever its inputs, clears `clicked` or deactivates an
/// activated switch.
pub proof fn lemma_switch_latch_for_life(s: Switch, inputs: Seq<(bool, bool, u64)>)
    requires
        s.wf(),
    ensures
        s.clicked ==> switch_run(s, inputs).clicked,
        s.spec_activated() ==> switch_run(s, inputs).spec_activated(),
    decreases inputs.len(),
{
    if inputs.len() > 0 {
        lemma_switch_monotonic(s, inputs[0].0, inputs[0].1, inputs[0].2);
        lemma_switch_latch_for_life(
            s.ticked(inputs[0].0, inputs[0].1, inputs[0].2),
            inputs.drop_first(),
        );
    }
}

} // verus!
