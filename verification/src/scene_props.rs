//! Scene authoring flags: an entity of a level asset may carry a small JSON
//! blob of boolean properties (a sensor volume, invisible geometry, complex
//! physics), and an entity inherits every flag that any of its ancestors
//! sets. The painted color the blob may also hold stays with the renderer.
use vstd::prelude::*;

verus! {

#[verifier::external_type_specification]
#[verifier::external_body]
pub struct ExValue(serde_json::Value);

/// Relies on serde_json::from_str::<Value>: the parsed JSON document, or
/// nothing where the text is not valid JSON.
#[verifier::external_body]
fn parse_json(s: &str) -> Option<serde_json::Value> {
    serde_json::from_str::<serde_json::Value>(s).ok()
}

/// Relies on serde_json::Value::get with a string index: the value under the
/// key, if this value is an object holding that key.
#[verifier::external_body]
fn json_get<'a>(v: &'a serde_json::Value, key: &str) -> Option<&'a serde_json::Value> {
    v.get(key)
}

/// Relies on serde_json::Value::as_bool: the payload of a boolean value,
/// nothing for any other kind of value.
#[verifier::external_body]
fn json_as_bool(v: &serde_json::Value) -> Option<bool> {
    v.as_bool()
}

/// The boolean authoring flags an entity can carry; a flag that is missing,
/// or not a boolean, counts as unset.
#[derive(PartialEq, Eq, Structural, Clone, Copy, Debug)]
pub struct SceneProps {
    pub ignore_physics: bool,
    pub invisible: bool,
    pub sensor: bool,
    pub diffuse_transmission: bool,
    pub no_shadow: bool,
    pub complex_physics: bool,
    pub text: bool,
}

pub open spec fn spec_no_props() -> SceneProps {
    SceneProps {
        ignore_physics: false,
        invisible: false,
        sensor: false,
        diffuse_transmission: false,
        no_shadow: false,
        complex_physics: false,
        text: false,
    }
}

impl Default for SceneProps {
    fn default() -> (r: SceneProps)
        ensures
            r == spec_no_props(),
    {
        SceneProps {
            ignore_physics: false,
            invisible: false,
            sensor: false,
            diffuse_transmission: false,
            no_shadow: false,
            complex_physics: false,
            text: false,
        }
    }
}

fn flag(v: &serde_json::Value, key: &str) -> bool {
    match json_get(v, key) {
        Some(f) => json_as_bool(f).unwrap_or(false),
        None => false,
    }
}

/// The flags one parsed blob sets. The document is opaque here: what each
/// flag ends up as is decided by the calls above, and everything downstream
/// holds for every outcome.
pub fn props_of_json(v: &serde_json::Value) -> SceneProps {
    SceneProps {
        ignore_physics: flag(v, "ignore_physics"),
        invisible: flag(v, "invisible"),
        sensor: flag(v, "sensor"),
        diffuse_transmission: flag(v, "diffuse_transmission"),
        no_shadow: flag(v, "no_shadow"),
        complex_physics: flag(v, "complex_physics"),
        text: flag(v, "text"),
    }
}

/// Parse an entity's property blob; text that is not JSON carries no flags.
pub fn parse_props(s: &str) -> SceneProps {
    match parse_json(s) {
        Some(v) => props_of_json(&v),
        None => SceneProps::default(),
    }
}

/// A child's flags with one ancestor's flags folded in: every set flag is
/// inherited.
pub open spec fn spec_merged(child: SceneProps, parent: SceneProps) -> SceneProps {
    SceneProps {
        ignore_physics: child.ignore_physics || parent.ignore_physics,
        invisible: child.invisible || parent.invisible,
        sensor: child.sensor || parent.sensor,
        diffuse_transmission: child.diffuse_transmission || parent.diffuse_transmission,
        no_shadow: child.no_shadow || parent.no_shadow,
        complex_physics: child.complex_physics || parent.complex_physics,
        text: child.text || parent.text,
    }
}

pub fn merged(child: &SceneProps, parent: &SceneProps) -> (r: SceneProps)
    ensures
        r == spec_merged(*child, *parent),
{
    SceneProps {
        ignore_physics: child.ignore_physics || parent.ignore_physics,
        invisible: child.invisible || parent.invisible,
        sensor: child.sensor || parent.sensor,
        diffuse_transmission: child.diffuse_transmission || parent.diffuse_transmission,
        no_shadow: child.no_shadow || parent.no_shadow,
        complex_physics: child.complex_physics || parent.complex_physics,
        text: child.text || parent.text,
    }
}

/// An entity's effective flags: its own, with every ancestor's folded in
/// along the chain up to the scene root.
pub open spec fn spec_inherited(own: SceneProps, chain: Seq<SceneProps>) -> SceneProps
    decreases chain.len(),
{
    if chain.len() == 0 {
        own
    } else {
        spec_inherited(spec_merged(own, chain[0]), chain.drop_first())
    }
}

pub fn inherited(own: &SceneProps, chain: &Vec<SceneProps>) -> (r: SceneProps)
    ensures
        r == spec_inherited(*own, chain@),
{
    let mut acc = *own;
    let mut i: usize = 0;
    proof {
        assert(chain@.skip(0) == chain@);
    }
    while i < chain.len()
        invariant
            i <= chain@.len(),
            spec_inherited(*own, chain@) == spec_inherited(acc, chain@.skip(i as int)),
        decreases chain@.len() - i,
    {
        proof {
            assert(chain@.skip(i as int).drop_first() =~= chain@.skip(i + 1));
            assert(chain@.skip(i as int)[0] == chain@[i as int]);
        }
        acc = merged(&acc, &chain[i]);
        i = i + 1;
    }
    proof {
        assert(chain@.skip(chain@.len() as int) =~= Seq::<SceneProps>::empty());
    }
    acc
}

} // verus!
