//! Player-side shared state that the puzzle elements read and write: the
//! facing direction, the per-tick push-force accumulator that all fans feed,
//! and the standing "currently touching" set built from collision events.
use vstd::prelude::*;

verus! {

#[derive(PartialEq, Eq, Structural, Clone, Copy, Debug)]
pub enum Direction {
    Right,
    Left,
}

/// The per-tick push-force accumulator, in milli-units per axis. The tick
/// protocol is: clear exactly once, then every pusher contributes, then the
/// physics collaborator consumes the total.
pub struct PushAccum {
    pub x: i64,
    pub y: i64,
}

impl PushAccum {
    pub fn new() -> (a: PushAccum)
        ensures
            a.x == 0,
            a.y == 0,
    {
        PushAccum { x: 0, y: 0 }
    }

    /// Reset at the start of a tick's force-gathering pass.
    pub fn clear(&mut self)
        ensures
            final(self).x == 0,
            final(self).y == 0,
    {
        self.x = 0;
        self.y = 0;
    }

    /// Add one pusher's force contribution.
    pub fn contribute(&mut self, dx: i64, dy: i64)
        requires
            i64::MIN <= old(self).x + dx <= i64::MAX,
            i64::MIN <= old(self).y + dy <= i64::MAX,
        ensures
            final(self).x == old(self).x + dx,
            final(self).y == old(self).y + dy,
    {
        self.x = self.x + dx;
        self.y = self.y + dy;
    }
}

/// The accumulator value after a run of contributions from a cleared start.
pub open spec fn push_total(contribs: Seq<(i64, i64)>) -> (int, int)
    decreases contribs.len(),
{
    if contribs.len() == 0 {
        (0int, 0int)
    } else {
        let rest = push_total(contribs.drop_last());
        (rest.0 + contribs.last().0, rest.1 + contribs.last().1)
    }
}

/// The accumulator value after the contributions arrive one by one, starting
/// from `v`: each step is what one `contribute` call does.
pub open spec fn gathered(v: (int, int), contribs: Seq<(i64, i64)>) -> (int, int)
    decreases contribs.len(),
{
    if contribs.len() == 0 {
        v
    } else {
        gathered((v.0 + contribs[0].0, v.1 + contribs[0].1), contribs.drop_first())
    }
}

proof fn lemma_push_total_first(s: Seq<(i64, i64)>)
    requires
        s.len() >= 1,
    ensures
        push_total(s).0 == s[0].0 + push_total(s.drop_first()).0,
        push_total(s).1 == s[0].1 + push_total(s.drop_first()).1,
    decreases s.len(),
{
    if s.len() == 1 {
        assert(s.drop_first() =~= Seq::<(i64, i64)>::empty());
        assert(s.drop_last() =~= Seq::<(i64, i64)>::empty());
    } else {
        lemma_push_total_first(s.drop_last());
        assert(s.drop_last().drop_first() =~= s.drop_first().drop_last());
        assert(s.drop_last()[0] == s[0]);
        assert(s.drop_first().last() == s.last());
    }
}

proof fn lemma_gather_shift(v: (int, int), contribs: Seq<(i64, i64)>)
    ensures
        gathered(v, contribs).0 == v.0 + push_total(contribs).0,
        gathered(v, contribs).1 == v.1 + push_total(contribs).1,
    decreases contribs.len(),
{
    if contribs.len() > 0 {
        lemma_gather_shift(
            (v.0 + contribs[0].0, v.1 + contribs[0].1),
            contribs.drop_first(),
        );
        lemma_push_total_first(contribs);
    }
}

/// One tick's force gathering: after a clear, a run of contributions leaves
/// exactly their componentwise sum in the accumulator, whatever order they
/// arrive in.
pub proof fn lemma_push_gather(contribs: Seq<(i64, i64)>)
    ensures
        gathered((0int, 0int), contribs) == push_total(contribs),
{
    lemma_gather_shift((0int, 0int), contribs);
}

/// A collision event between the player and puzzle geometry, keyed by opaque
/// entity identities.
#[derive(PartialEq, Eq, Structural, Clone, Copy, Debug)]
pub enum CollisionEvent {
    Started(u64, u64),
    Stopped(u64, u64),
}

/// The entity the player collided with, if the event involves the player.
pub open spec fn spec_collision_other(player: u64, a: u64, b: u64) -> Option<u64> {
    if a == player {
        Some(b)
    } else if b == player {
        Some(a)
    } else {
        None
    }
}

/// The touching set after one event has been applied.
pub open spec fn touched_after(touching: Set<u64>, player: u64, ev: CollisionEvent) -> Set<u64> {
    match ev {
        CollisionEvent::Started(a, b) => match spec_collision_other(player, a, b) {
            Some(other) => touching.insert(other),
            None => touching,
        },
        CollisionEvent::Stopped(a, b) => match spec_collision_other(player, a, b) {
            Some(other) => touching.remove(other),
            None => touching,
        },
    }
}

/// The touching set after a whole tick's worth of events.
pub open spec fn touched_after_all(touching: Set<u64>, player: u64, evs: Seq<CollisionEvent>) -> Set<
    u64,
>
    decreases evs.len(),
{
    if evs.len() == 0 {
        touching
    } else {
        touched_after_all(touched_after(touching, player, evs[0]), player, evs.drop_first())
    }
}

/// The lamp turns on at 5.0/s while the space key is held.
pub const LIGHT_ON_RATE: u64 = 5000;

/// The lamp turns off at 20.0/s once the key is released.
pub const LIGHT_OFF_RATE: u64 = 20000;

/// The diver's head lamp: a ramp driven by the space key, shown only once it
/// has passed half scale.
pub struct PlayerLight {
    /// Ramp progress in `[0, UNIT]` micro-steps.
    pub timer: u64,
}

impl PlayerLight {
    pub open spec fn wf(self) -> bool {
        self.timer <= crate::ramp::UNIT
    }

    pub open spec fn spec_visible(self) -> bool {
        self.timer > 500000
    }

    pub fn new() -> (l: PlayerLight)
        ensures
            l.wf(),
            l.timer == 0,
            !l.spec_visible(),
    {
        PlayerLight { timer: 0 }
    }

    /// One simulation tick, driven by whether the space key is held.
    pub fn tick(&mut self, space: bool, delta_ms: u64)
        requires
            old(self).wf(),
        ensures
            final(self).wf(),
            final(self).timer == crate::ramp::ramp_step(
                old(self).timer,
                delta_ms,
                if space {
                    LIGHT_ON_RATE
                } else {
                    LIGHT_OFF_RATE
                },
                space,
                0,
                crate::ramp::UNIT,
            ),
    {
        let rate = if space {
            LIGHT_ON_RATE
        } else {
            LIGHT_OFF_RATE
        };
        self.timer = crate::ramp::advance(self.timer, delta_ms, rate, space, 0, crate::ramp::UNIT);
    }

    pub fn visible(&self) -> (r: bool)
        ensures
            r == self.spec_visible(),
    {
        self.timer > 500000
    }
}

/// The standing set of entities the player is currently touching, maintained
/// from proximity begin/end events.
pub struct TouchSet {
    items: Vec<u64>,
}

impl TouchSet {
    pub closed spec fn view(self) -> Set<u64> {
        self.items@.to_set()
    }

    pub closed spec fn wf(self) -> bool {
        self.items@.no_duplicates()
    }

    pub fn new() -> (t: TouchSet)
        ensures
            t.wf(),
            t.view() == Set::<u64>::empty(),
    {
        let t = TouchSet { items: Vec::new() };
        proof {
            assert(t.items@.to_set() =~= Set::<u64>::empty());
        }
        t
    }

    pub fn contains(&self, id: u64) -> (r: bool)
        ensures
            r == self.view().contains(id),
    {
        let mut i: usize = 0;
        while i < self.items.len()
            invariant
                i <= self.items@.len(),
                forall|j: int| 0 <= j < i ==> self.items@[j] != id,
            decreases self.items@.len() - i,
        {
            if self.items[i] == id {
                return true;
            }
            i = i + 1;
        }
        proof {
            assert(!self.items@.to_set().contains(id));
        }
        false
    }

    fn insert(&mut self, id: u64)
        requires
            old(self).wf(),
        ensures
            final(self).wf(),
            final(self).view() == old(self).view().insert(id),
    {
        if !self.contains(id) {
            proof {
                self.items@.lemma_push_to_set_commute(id);
            }
            self.items.push(id);
        } else {
            proof {
                assert(self.items@.to_set() =~= self.items@.to_set().insert(id));
            }
        }
    }

    fn remove(&mut self, id: u64)
        requires
            old(self).wf(),
        ensures
            final(self).wf(),
            final(self).view() == old(self).view().remove(id),
    {
        let mut kept: Vec<u64> = Vec::new();
        let mut i: usize = 0;
        while i < self.items.len()
            invariant
                i <= self.items@.len(),
                self.items@.no_duplicates(),
                kept@.no_duplicates(),
                forall|e: u64|
                    kept@.contains(e) <==> (#[trigger] self.items@.take(i as int).contains(e) && e
                        != id),
            decreases self.items@.len() - i,
        {
            let e = self.items[i];
            proof {
                assert(forall|j: int|
                    0 <= j < i ==> self.items@.take(i as int)[j] == self.items@[j]);
                assert(!self.items@.take(i as int).contains(e));
                assert(forall|x: u64| #[trigger]
                    self.items@.take(i + 1).contains(x) <==> self.items@.take(i as int).contains(x)
                        || x == e) by {
                    assert(forall|j: int|
                        0 <= j < i + 1 ==> #[trigger] self.items@.take(i + 1)[j] == self.items@[j]);
                    assert(self.items@.take(i + 1)[i as int] == e);
                };
            }
            if e != id {
                proof {
                    assert(forall|x: u64|
                        #[trigger] kept@.push(e).contains(x) <==> x == e || kept@.contains(x)) by {
                        broadcast use vstd::seq_lib::lemma_seq_contains_after_push;

                    };
                }
                kept.push(e);
            }
            i = i + 1;
        }
        proof {
            assert(self.items@.take(self.items@.len() as int) == self.items@);
            assert(kept@.to_set() =~= self.items@.to_set().remove(id));
        }
        self.items = kept;
    }

    /// Apply one proximity event, as the physics collaborator reports it.
    pub fn apply_event(&mut self, player: u64, ev: CollisionEvent)
        requires
            old(self).wf(),
        ensures
            final(self).wf(),
            final(self).view() == touched_after(old(self).view(), player, ev),
    {
        match ev {
            CollisionEvent::Started(a, b) => {
                if a == player {
                    self.insert(b);
                } else if b == player {
                    self.insert(a);
                }
            }
            CollisionEvent::Stopped(a, b) => {
                if a == player {
                    self.remove(b);
                } else if b == player {
                    self.remove(a);
                }
            }
        }
    }

    /// Apply a whole tick's worth of proximity events in order.
    pub fn process_collisions(&mut self, player: u64, events: &Vec<CollisionEvent>)
        requires
            old(self).wf(),
        ensures
            final(self).wf(),
            final(self).view() == touched_after_all(old(self).view(), player, events@),
    {
        proof {
            assert(events@.skip(0) == events@);
        }
        let mut i: usize = 0;
        while i < events.len()
            invariant
                i <= events@.len(),
                self.wf(),
                touched_after_all(old(self).view(), player, events@) == touched_after_all(
                    self.view(),
                    player,
                    events@.skip(i as int),
                ),
            decreases events@.len() - i,
        {
            proof {
                assert(events@.skip(i as int).drop_first() =~= events@.skip(i + 1));
                assert(events@.skip(i as int)[0] == events@[i as int]);
            }
            self.apply_event(player, events[i]);
            i = i + 1;
        }
        proof {
            assert(events@.skip(events@.len() as int) =~= Seq::<CollisionEvent>::empty());
        }
    }
}

} // verus!
