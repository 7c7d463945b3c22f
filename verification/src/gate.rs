//! A gate: a door that a level wiring opens. Opening plays an animation;
//! the physical blocker becomes passable only once the opening animation
//! has settled.
use vstd::prelude::*;

verus! {

/// Which way a gate's animation should be played when it starts.
#[derive(PartialEq, Eq, Structural, Clone, Copy, Debug)]
pub enum GateAnimation {
    Opening,
    Closing,
}

pub struct Gate {
    /// Whether this gate has been commanded open.
    pub is_open: bool,
    /// Whether an animation start is pending for the next tick.
    pub start_animation: bool,
    /// Whether the blocking collider currently lets the player through.
    pub passable: bool,
}

/// What one gate tick asks the animation collaborator to do.
pub struct GateTickOut {
    /// `Some` exactly on the tick that consumes a pending animation start.
    pub play: Option<GateAnimation>,
}

impl Gate {
    /// Open and animation settled.
    pub open spec fn spec_opened(self) -> bool {
        self.is_open && !self.start_animation
    }

    /// This gate after an open command: an already-open gate is untouched.
    pub open spec fn spec_open(self) -> Gate {
        if self.is_open {
            self
        } else {
            Gate { is_open: true, start_animation: true, ..self }
        }
    }

    pub fn new() -> (g: Gate)
        ensures
            !g.is_open,
            !g.start_animation,
            !g.passable,
            !g.spec_opened(),
    {
        Gate { is_open: false, start_animation: false, passable: false }
    }

    pub fn opened(&self) -> (r: bool)
        ensures
            r == self.spec_opened(),
    {
        self.is_open && !self.start_animation
    }

    /// Command this gate open. Idempotent: a gate that is already open (or
    /// already opening) is left untouched, so the opening animation is never
    /// restarted.
    pub fn open(&mut self)
        ensures
            *final(self) == old(self).spec_open(),
            final(self).is_open,
            old(self).spec_opened() ==> *final(self) == *old(self),
    {
        if !self.is_open {
            self.is_open = true;
            self.start_animation = true;
        }
    }

    /// The state after one tick, given whether this gate's animation has finished.
    pub open spec fn ticked(self, animation_finished: bool) -> Gate {
        let after_start = if self.start_animation {
            Gate {
                start_animation: false,
                passable: if self.is_open {
                    self.passable
                } else {
                    false
                },
                ..self
            }
        } else {
            self
        };
        if animation_finished && after_start.is_open {
            Gate { passable: true, ..after_start }
        } else {
            after_start
        }
    }

    /// One simulation tick. A pending animation start is consumed and handed
    /// to the caller; a gate that starts closing becomes solid at once, and an
    /// open gate becomes passable when its animation finishes.
    pub fn tick(&mut self, animation_finished: bool) -> (out: GateTickOut)
        ensures
            *final(self) == old(self).ticked(animation_finished),
            out.play == if old(self).start_animation {
                Some(
                    if old(self).is_open {
                        GateAnimation::Opening
                    } else {
                        GateAnimation::Closing
                    },
                )
            } else {
                None::<GateAnimation>
            },
    {
        let mut play: Option<GateAnimation> = None;
        if self.start_animation {
            self.start_animation = false;
            if self.is_open {
                play = Some(GateAnimation::Opening);
            } else {
                play = Some(GateAnimation::Closing);
                self.passable = false;
            }
        }
        if animation_finished && self.is_open {
            self.passable = true;
        }
        GateTickOut { play }
    }
}

/// Opening is monotonic across ticks: once `opened()` holds it keeps holding,
/// and a settled open gate that has seen its animation finish stays passable.
pub proof fn lemma_gate_opened_stable(g: Gate, animation_finished: bool)
    ensures
        g.spec_opened() ==> g.ticked(animation_finished).spec_opened(),
        g.spec_opened() && g.passable ==> g.ticked(animation_finished).passable,
{
}

} // verus!
