//! A random level-layout sketch: a space-joined phrase of puzzle node names,
//! grown by walking a fixed "may stand before" relation from a random start
//! node, with `|` between independent phrases. The string reads left to
//! right; each node may be followed (to its right) only by a node it can
//! stand before.
use vstd::prelude::*;

use rand::Rng;

verus! {

/// How many phrases one layout holds.
pub const PHRASES: usize = 4;

/// How many relation steps one phrase may chain; the relation has cycles, so
/// an unbounded walk could go on forever, and the budget cuts it off.
pub const CHAIN_LIMIT: usize = 16;

/// Relies on rand::rngs::ThreadRng: the thread-local generator's handle,
/// carried through opaquely between the calls below.
#[verifier::external_type_specification]
#[verifier::external_body]
pub struct ExThreadRng(rand::rngs::ThreadRng);

/// Relies on rand::thread_rng: a handle to the thread-local generator.
#[verifier::external_body]
fn fresh_rng() -> rand::rngs::ThreadRng {
    rand::thread_rng()
}

/// Relies on rand::Rng::gen_range over `0..len`: a value of that range; it
/// panics only on an empty range, which the bound excludes.
#[verifier::external_body]
fn pick_index(rng: &mut rand::rngs::ThreadRng, len: usize) -> (r: usize)
    requires
        len > 0,
    ensures
        r < len,
{
    rng.gen_range(0..len)
}

/// The vocabulary of a layout sketch.
#[derive(PartialEq, Eq, Structural, Clone, Copy, Debug)]
pub enum Node {
    Wall,
    Fan,
    Gate,
    Camera,
    Switch,
    Input,
    Tip,
    /// The phrase separator, written `|`.
    Break,
}

pub open spec fn spec_node_name(n: Node) -> Seq<char> {
    match n {
        Node::Wall => ("wall")@,
        Node::Fan => ("fan")@,
        Node::Gate => ("gate")@,
        Node::Camera => ("camera")@,
        Node::Switch => ("switch")@,
        Node::Input => ("input")@,
        Node::Tip => ("tip")@,
        Node::Break => ("|")@,
    }
}

fn node_name(n: Node) -> (r: &'static str)
    ensures
        r@ == spec_node_name(n),
{
    match n {
        Node::Wall => "wall",
        Node::Fan => "fan",
        Node::Gate => "gate",
        Node::Camera => "camera",
        Node::Switch => "switch",
        Node::Input => "input",
        Node::Tip => "tip",
        Node::Break => "|",
    }
}

/// Whether `b` may stand directly to the left of `a` in a phrase: `a` is one
/// of the nodes the walk may append after `b`.
pub open spec fn spec_after_contains(b: Node, a: Node) -> bool {
    match b {
        Node::Input => a == Node::Tip,
        Node::Switch => a == Node::Fan || a == Node::Gate,
        Node::Wall => a == Node::Fan || a == Node::Gate,
        Node::Fan => a == Node::Switch || a == Node::Input,
        Node::Camera => a == Node::Switch || a == Node::Input,
        Node::Gate => a == Node::Switch || a == Node::Input,
        Node::Tip => false,
        Node::Break => false,
    }
}

/// Follow the relation one random step from `n`, if it leads anywhere.
fn choose_after(rng: &mut rand::rngs::ThreadRng, n: Node) -> (r: Option<Node>)
    ensures
        r matches Some(m) ==> spec_after_contains(n, m),
{
    match n {
        Node::Input => Some(Node::Tip),
        Node::Switch | Node::Wall => {
            if pick_index(rng, 2) == 0 {
                Some(Node::Fan)
            } else {
                Some(Node::Gate)
            }
        },
        Node::Fan | Node::Camera | Node::Gate => {
            if pick_index(rng, 2) == 0 {
                Some(Node::Switch)
            } else {
                Some(Node::Input)
            }
        },
        Node::Tip | Node::Break => None,
    }
}

/// The node names joined by single spaces.
pub open spec fn spec_joined(ts: Seq<Node>) -> Seq<char>
    decreases ts.len(),
{
    if ts.len() == 0 {
        Seq::empty()
    } else if ts.len() == 1 {
        spec_node_name(ts[0])
    } else {
        spec_joined(ts.drop_last()) + (" ")@ + spec_node_name(ts.last())
    }
}

/// A layout sketch is a nonempty, space-joined run of node names that starts
/// and ends with a real node, and in which every neighbour pair within a
/// phrase respects the stand-before relation.
pub open spec fn spec_layout(ts: Seq<Node>) -> bool {
    &&& ts.len() >= 1
    &&& ts[0] != Node::Break
    &&& ts[ts.len() - 1] != Node::Break
    &&& (forall|k: int|
        0 <= k < ts.len() - 1 && (#[trigger] ts[k]) != Node::Break && ts[k + 1] != Node::Break
            ==> spec_after_contains(ts[k + 1], ts[k]))
}

/// Generate a random layout sketch.
pub fn generate() -> (r: String)
    ensures
        exists|ts: Seq<Node>| #[trigger] spec_layout(ts) && r@ == spec_joined(ts),
{
    let mut rng = fresh_rng();
    let mut walk: Vec<Node> = Vec::new();
    let mut phrases: usize = 0;
    let mut budget: usize = 0;
    let mut cur: Option<Node> = None;

    loop
        invariant
            phrases <= PHRASES,
            phrases == 0 ==> walk@.len() == 0 && cur is None,
            phrases >= 1 ==> walk@.len() >= 1,
            walk@.len() > 0 ==> walk@[0] != Node::Break,
            walk@.len() > 0 ==> walk@[walk@.len() - 1] != Node::Break,
            cur matches Some(m) ==> walk@.len() > 0 && m != Node::Break && spec_after_contains(
                walk@[walk@.len() - 1],
                m,
            ),
            forall|k: int|
                0 <= k < walk@.len() - 1 && (#[trigger] walk@[k]) != Node::Break && walk@[k + 1]
                    != Node::Break ==> spec_after_contains(walk@[k], walk@[k + 1]),
        ensures
            walk@.len() >= 1,
            walk@[0] != Node::Break,
            walk@[walk@.len() - 1] != Node::Break,
            forall|k: int|
                0 <= k < walk@.len() - 1 && (#[trigger] walk@[k]) != Node::Break && walk@[k + 1]
                    != Node::Break ==> spec_after_contains(walk@[k], walk@[k + 1]),
        decreases PHRASES - phrases, budget, (if cur is Some {
            1int
        } else {
            0int
        }),
    {
        match cur {
            None => {
                if phrases >= PHRASES {
                    break ;
                }
                if phrases != 0 {
                    walk.push(Node::Break);
                }
                phrases = phrases + 1;
                budget = CHAIN_LIMIT;
                let node = match pick_index(&mut rng, 4) {
                    0 => Node::Wall,
                    1 => Node::Fan,
                    2 => Node::Gate,
                    _ => Node::Camera,
                };
                walk.push(node);
                cur = choose_after(&mut rng, node);
            },
            Some(node) => {
                walk.push(node);
                if budget > 0 {
                    budget = budget - 1;
                    cur = choose_after(&mut rng, node);
                } else {
                    cur = None;
                }
            },
        }
    }

    // The walk was grown right to left: the sketch reads it reversed.
    let n = walk.len();
    let mut ordered: Vec<Node> = Vec::new();
    let mut j: usize = n;
    while j > 0
        invariant
            j <= n,
            n == walk@.len(),
            ordered@.len() == n - j,
            forall|m: int| 0 <= m < ordered@.len() ==> ordered@[m] == walk@[n - 1 - m],
        decreases j,
    {
        j = j - 1;
        ordered.push(walk[j]);
    }

    let mut s = String::new();
    let mut k: usize = 0;
    while k < n
        invariant
            k <= n,
            n == ordered@.len(),
            s@ == spec_joined(ordered@.take(k as int)),
        decreases n - k,
    {
        proof {
            assert(ordered@.take(k + 1).drop_last() =~= ordered@.take(k as int));
            assert(ordered@.take(k + 1).last() == ordered@[k as int]);
        }
        if k > 0 {
            s.append(" ");
        }
        s.append(node_name(ordered[k]));
        proof {
            if k == 0 {
                assert(s@ =~= spec_joined(ordered@.take(1)));
            } else {
                assert(s@ =~= spec_joined(ordered@.take(k + 1)));
            }
        }
        k = k + 1;
    }

    proof {
        assert(ordered@.take(n as int) =~= ordered@);
        assert(ordered@[0] == walk@[n - 1]);
        assert(ordered@[n - 1] == walk@[0]);
        assert forall|k: int|
            0 <= k < ordered@.len() - 1 && (#[trigger] ordered@[k]) != Node::Break && ordered@[k
                + 1] != Node::Break implies spec_after_contains(ordered@[k + 1], ordered@[k]) by {
            assert(ordered@[k] == walk@[n - 1 - k]);
            assert(ordered@[k + 1] == walk@[n - 2 - k]);
        };
        assert(spec_layout(ordered@));
    }
    s
}

} // verus!
