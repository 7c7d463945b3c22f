//! Level sequencing: which level's systems run, and the one-shot restart
//! pseudo-state. A wiring decision latched in one tick is applied at the
//! start of the next, so no partially-switched level is ever observed.
use vstd::prelude::*;

verus! {

#[derive(PartialEq, Eq, Structural, Clone, Copy, Debug, Hash)]
pub enum GameState {
    Restart,
    Level0,
    Level1,
    Level2,
    Level3,
    Level4,
}

/// A level wiring's per-tick decision about where the game goes next.
#[derive(PartialEq, Eq, Structural, Clone, Copy, Debug)]
pub enum Transition {
    /// Tear the current level down and enter it afresh.
    Restart,
    /// Move on to the named level.
    Goto(GameState),
}

/// The level sequencer: the running level, the transition latched for the
/// next tick, and where a restart returns to.
pub struct Sequencer {
    pub state: GameState,
    pub pending: Option<GameState>,
    pub restart_target: Option<GameState>,
}

impl Sequencer {
    pub open spec fn wf(self) -> bool {
        &&& self.state != GameState::Restart
        &&& (self.pending == Some(GameState::Restart) ==> self.restart_target is Some)
        &&& (match self.restart_target {
            Some(t) => t != GameState::Restart,
            None => true,
        })
    }

    pub fn new(initial: GameState) -> (s: Sequencer)
        requires
            initial != GameState::Restart,
        ensures
            s.wf(),
            s.state == initial,
            s.pending is None,
    {
        Sequencer { state: initial, pending: None, restart_target: None }
    }

    /// Latch a wiring decision. A restart always wins: once latched in a
    /// tick, no advance request of the same tick can displace it.
    pub fn request(&mut self, t: Transition)
        requires
            old(self).wf(),
            t matches Transition::Goto(l) ==> l != GameState::Restart,
        ensures
            final(self).wf(),
            final(self).state == old(self).state,
            old(self).pending == Some(GameState::Restart) ==> final(self).pending == old(self).pending && final(self).restart_target == old(self).restart_target,
            old(self).pending != Some(GameState::Restart) ==> match t {
                Transition::Restart => final(self).pending == Some(GameState::Restart) && final(self).restart_target == Some(old(self).state),
                Transition::Goto(l) => final(self).pending == Some(l) && final(self).restart_target
                    == old(self).restart_target,
            },
    {
        match self.pending {
            Some(GameState::Restart) => {},
            _ => {
                match t {
                    Transition::Restart => {
                        self.restart_target = Some(self.state);
                        self.pending = Some(GameState::Restart);
                    },
                    Transition::Goto(l) => {
                        self.pending = Some(l);
                    },
                }
            },
        }
    }

    /// Apply the latched transition at the start of a tick. The restart
    /// pseudo-state redirects at once to the remembered level, so the
    /// sequencer never rests in it. Returns the level to load, if the state
    /// changed.
    pub fn apply(&mut self) -> (loaded: Option<GameState>)
        requires
            old(self).wf(),
        ensures
            final(self).wf(),
            final(self).pending is None,
            match old(self).pending {
                None => final(self).state == old(self).state && loaded is None,
                Some(GameState::Restart) => final(self).state == old(self).restart_target.unwrap() && loaded == Some(final(self).state),
                Some(l) => final(self).state == l && loaded == Some(l),
            },
    {
        match self.pending {
            None => None,
            Some(GameState::Restart) => {
                self.pending = None;
                let target = match self.restart_target {
                    Some(t) => t,
                    None => self.state,
                };
                self.restart_target = None;
                self.state = target;
                Some(target)
            },
            Some(l) => {
                self.pending = None;
                self.state = l;
                Some(l)
            },
        }
    }
}

} // verus!
