//! Name-based discovery: the level asset addresses every puzzle part by a
//! human-readable name, and substring matching with positional digit
//! decoding is the sole link between the visual asset and the logic graph.
//! Names are handled as byte strings; a part whose numbered name decodes out
//! of range is unrecognized, which callers treat as an authoring error.
use vstd::prelude::*;
use vstd::string::StringSliceAdditionalSpecFns;

verus! {

/// `needle` occurs in `hay` at position `i`.
pub open spec fn matches_at(hay: Seq<u8>, needle: Seq<u8>, i: int) -> bool {
    0 <= i && i + needle.len() <= hay.len() && hay.subrange(i, i + needle.len()) == needle
}

/// `needle` occurs somewhere in `hay`.
pub open spec fn has_sub(hay: Seq<u8>, needle: Seq<u8>) -> bool {
    exists|i: int| matches_at(hay, needle, i)
}

/// `i` is the first position at which `needle` occurs in `hay`.
pub open spec fn first_match(hay: Seq<u8>, needle: Seq<u8>, i: int) -> bool {
    matches_at(hay, needle, i) && forall|j: int| 0 <= j < i ==> !matches_at(hay, needle, j)
}

/// Two first matches are the same match.
pub proof fn lemma_first_match_unique(hay: Seq<u8>, needle: Seq<u8>, i: int, j: int)
    requires
        first_match(hay, needle, i),
        first_match(hay, needle, j),
    ensures
        i == j,
{
}

fn eq_at(hay: &[u8], needle: &[u8], i: usize) -> (r: bool)
    requires
        i + needle@.len() <= hay@.len(),
    ensures
        r == matches_at(hay@, needle@, i as int),
{
    let hl = hay.len();
    let nl = needle.len();
    let mut k: usize = 0;
    while k < nl
        invariant
            k <= nl,
            hl == hay@.len(),
            nl == needle@.len(),
            i + nl <= hl,
            forall|m: int| 0 <= m < k ==> hay@[i + m] == needle@[m],
        decreases nl - k,
    {
        if hay[i + k] != needle[k] {
            proof {
                assert(hay@.subrange(i as int, i + needle@.len())[k as int] == hay@[i + k]);
            }
            return false;
        }
        k = k + 1;
    }
    proof {
        assert(hay@.subrange(i as int, i + needle@.len()) =~= needle@);
    }
    true
}

/// The first position at which `needle` occurs in `hay`, if it occurs.
pub fn find_sub(hay: &[u8], needle: &[u8]) -> (r: Option<usize>)
    ensures
        r matches Some(i) ==> first_match(hay@, needle@, i as int),
        r is None ==> !has_sub(hay@, needle@),
{
    let hl = hay.len();
    let nl = needle.len();
    if nl > hl {
        return None;
    }
    if nl == 0 {
        proof {
            assert(hay@.subrange(0, 0) =~= needle@);
            assert(matches_at(hay@, needle@, 0));
        }
        return Some(0);
    }
    let mut i: usize = 0;
    while i <= hl - nl
        invariant
            hl == hay@.len(),
            nl == needle@.len(),
            1 <= nl <= hl,
            i <= hl - nl + 1,
            forall|j: int| 0 <= j < i ==> !matches_at(hay@, needle@, j),
        decreases hl - i,
    {
        if eq_at(hay, needle, i) {
            return Some(i);
        }
        i = i + 1;
    }
    None
}

/// Whether two names are letter-for-letter the same.
pub fn eq_bytes(a: &[u8], b: &[u8]) -> (r: bool)
    ensures
        r == (a@ == b@),
{
    let al = a.len();
    if al != b.len() {
        return false;
    }
    let mut k: usize = 0;
    while k < al
        invariant
            k <= al,
            al == a@.len(),
            al == b@.len(),
            forall|m: int| 0 <= m < k ==> a@[m] == b@[m],
        decreases al - k,
    {
        if a[k] != b[k] {
            return false;
        }
        k = k + 1;
    }
    proof {
        assert(a@ =~= b@);
    }
    true
}

/// Whether `needle` occurs anywhere in `hay`.
pub fn contains_sub(hay: &[u8], needle: &[u8]) -> (r: bool)
    ensures
        r == has_sub(hay@, needle@),
{
    match find_sub(hay, needle) {
        Some(i) => {
            proof {
                assert(matches_at(hay@, needle@, i as int));
            }
            true
        },
        None => false,
    }
}

/// The byte standing `offset` places after the first occurrence of `tag` in
/// `name`: the positional digit encoding that numbered part families use.
pub open spec fn byte_after(name: Seq<u8>, tag: Seq<u8>, offset: int) -> Option<u8> {
    if exists|i: int| first_match(name, tag, i) {
        let i = choose|i: int| first_match(name, tag, i);
        let p = i + tag.len() + offset;
        if 0 <= p < name.len() {
            Some(name[p])
        } else {
            None
        }
    } else {
        None
    }
}

/// Read the byte `offset` places after the first occurrence of `tag`.
fn read_after(name: &[u8], tag: &[u8], offset: usize) -> (r: Option<u8>)
    ensures
        r == byte_after(name@, tag@, offset as int),
{
    match find_sub(name, tag) {
        Some(i) => {
            proof {
                assert(exists|k: int| first_match(name@, tag@, k));
                lemma_first_match_unique(
                    name@,
                    tag@,
                    i as int,
                    choose|k: int| first_match(name@, tag@, k),
                );
            }
            // The match bound keeps `i + tag.len()` within the name.
            let hl = name.len();
            proof {
                assert(i + tag@.len() <= name@.len());
            }
            let p = i + tag.len();
            if offset < hl - p {
                Some(name[p + offset])
            } else {
                None
            }
        },
        None => None,
    }
}

/// A digit slot and segment index decoded from a `segment_<d>_<s>` name:
/// digit slots run 1 to 4 and segments 1 to 7 in the asset, and come out
/// zero-based.
pub open spec fn spec_decode_segment(name: Seq<u8>) -> Option<(u8, u8)> {
    match (byte_after(name, ("segment_").spec_bytes(), 0), byte_after(
        name,
        ("segment_").spec_bytes(),
        2,
    )) {
        (Some(d), Some(s)) => if 0x31 <= d <= 0x34 && 0x31 <= s <= 0x37 {
            Some(((d - 0x31) as u8, (s - 0x31) as u8))
        } else {
            None
        },
        _ => None,
    }
}

/// Decode a digit-segment mesh name of the keypad display.
pub fn decode_segment(name: &[u8]) -> (r: Option<(u8, u8)>)
    ensures
        r == spec_decode_segment(name@),
{
    let tag = ("segment_").as_bytes();
    match (read_after(name, tag, 0), read_after(name, tag, 2)) {
        (Some(d), Some(s)) => if 0x31 <= d && d <= 0x34 && 0x31 <= s && s <= 0x37 {
            Some((d - 0x31, s - 0x31))
        } else {
            None
        },
        _ => None,
    }
}

/// The digit a `btn_<n>` keypad button name carries.
pub open spec fn spec_decode_button(name: Seq<u8>) -> Option<u8> {
    match byte_after(name, ("btn_").spec_bytes(), 0) {
        Some(b) => if 0x30 <= b <= 0x39 {
            Some((b - 0x30) as u8)
        } else {
            None
        },
        None => None,
    }
}

/// Decode a keypad button name.
pub fn decode_button(name: &[u8]) -> (r: Option<u8>)
    ensures
        r == spec_decode_button(name@),
{
    let tag = ("btn_").as_bytes();
    match read_after(name, tag, 0) {
        Some(b) => if 0x30 <= b && b <= 0x39 {
            Some(b - 0x30)
        } else {
            None
        },
        None => None,
    }
}

#[derive(PartialEq, Eq, Structural, Clone, Copy, Debug)]
pub enum SwitchPart {
    RedScreen,
    GreenScreen,
    Sensor,
}

pub open spec fn spec_switch_part(name: Seq<u8>, has_mesh: bool, has_collider: bool) -> Option<
    SwitchPart,
> {
    if has_sub(name, ("red").spec_bytes()) && has_mesh {
        Some(SwitchPart::RedScreen)
    } else if has_sub(name, ("green").spec_bytes()) && has_mesh {
        Some(SwitchPart::GreenScreen)
    } else if has_sub(name, ("sensor").spec_bytes()) && has_collider {
        Some(SwitchPart::Sensor)
    } else {
        None
    }
}

/// Which part of a switch a descendant name denotes: the red or green status
/// screen (a mesh) or the proximity sensor (a collider).
pub fn switch_part(name: &[u8], has_mesh: bool, has_collider: bool) -> (r: Option<SwitchPart>)
    ensures
        r == spec_switch_part(name@, has_mesh, has_collider),
{
    if contains_sub(name, ("red").as_bytes()) && has_mesh {
        Some(SwitchPart::RedScreen)
    } else if contains_sub(name, ("green").as_bytes()) && has_mesh {
        Some(SwitchPart::GreenScreen)
    } else if contains_sub(name, ("sensor").as_bytes()) && has_collider {
        Some(SwitchPart::Sensor)
    } else {
        None
    }
}

pub open spec fn spec_gate_physics(name: Seq<u8>, has_collider: bool) -> bool {
    has_sub(name, ("physics").spec_bytes()) && has_collider
}

/// Whether a gate descendant is the blocking collider body.
pub fn gate_physics(name: &[u8], has_collider: bool) -> (r: bool)
    ensures
        r == spec_gate_physics(name@, has_collider),
{
    contains_sub(name, ("physics").as_bytes()) && has_collider
}

#[derive(PartialEq, Eq, Structural, Clone, Copy, Debug)]
pub enum CameraPart {
    Cone,
    Sensor,
}

pub open spec fn spec_camera_part(name: Seq<u8>, has_mesh: bool, has_collider: bool) -> Option<
    CameraPart,
> {
    if has_sub(name, ("cone").spec_bytes()) && has_mesh {
        Some(CameraPart::Cone)
    } else if has_sub(name, ("sensor").spec_bytes()) && has_collider {
        Some(CameraPart::Sensor)
    } else {
        None
    }
}

/// Which part of a security camera a descendant name denotes: the visible
/// detection cone or the proximity sensor volume.
pub fn camera_part(name: &[u8], has_mesh: bool, has_collider: bool) -> (r: Option<CameraPart>)
    ensures
        r == spec_camera_part(name@, has_mesh, has_collider),
{
    if contains_sub(name, ("cone").as_bytes()) && has_mesh {
        Some(CameraPart::Cone)
    } else if contains_sub(name, ("sensor").as_bytes()) && has_collider {
        Some(CameraPart::Sensor)
    } else {
        None
    }
}

#[derive(PartialEq, Eq, Structural, Clone, Copy, Debug)]
pub enum CodePart {
    Screen,
    Sensor,
    /// A display segment: (digit slot, segment index), zero-based.
    Segment(u8, u8),
    /// A keypad digit button.
    Button(u8),
}

pub open spec fn spec_code_part(name: Seq<u8>, has_mesh: bool, has_collider: bool) -> Option<
    CodePart,
> {
    if has_sub(name, ("screen").spec_bytes()) && has_mesh {
        Some(CodePart::Screen)
    } else if has_sub(name, ("sensor").spec_bytes()) && has_collider {
        Some(CodePart::Sensor)
    } else if has_sub(name, ("segment_").spec_bytes()) {
        match spec_decode_segment(name) {
            Some((d, s)) => Some(CodePart::Segment(d, s)),
            None => None,
        }
    } else if has_sub(name, ("btn_").spec_bytes()) {
        match spec_decode_button(name) {
            Some(n) => Some(CodePart::Button(n)),
            None => None,
        }
    } else {
        None
    }
}

/// Which part of a keypad a descendant name denotes. A numbered name whose
/// digits decode out of range stays unrecognized: that is an authoring error
/// the level load reports rather than a panic inside a tick.
pub fn code_part(name: &[u8], has_mesh: bool, has_collider: bool) -> (r: Option<CodePart>)
    ensures
        r == spec_code_part(name@, has_mesh, has_collider),
{
    if contains_sub(name, ("screen").as_bytes()) && has_mesh {
        Some(CodePart::Screen)
    } else if contains_sub(name, ("sensor").as_bytes()) && has_collider {
        Some(CodePart::Sensor)
    } else if contains_sub(name, ("segment_").as_bytes()) {
        match decode_segment(name) {
            Some((d, s)) => Some(CodePart::Segment(d, s)),
            None => None,
        }
    } else if contains_sub(name, ("btn_").as_bytes()) {
        match decode_button(name) {
            Some(n) => Some(CodePart::Button(n)),
            None => None,
        }
    } else {
        None
    }
}

#[derive(PartialEq, Eq, Structural, Clone, Copy, Debug)]
pub enum FanPart {
    Pusher,
    Model,
}

pub open spec fn spec_fan_part(name: Seq<u8>, has_collider: bool) -> Option<FanPart> {
    if has_sub(name, ("pusher").spec_bytes()) && has_collider {
        Some(FanPart::Pusher)
    } else if has_sub(name, ("fan.").spec_bytes()) {
        Some(FanPart::Model)
    } else {
        None
    }
}

/// Which part of a fan a descendant name denotes: the push volume or the
/// spinning blade model.
pub fn fan_part(name: &[u8], has_collider: bool) -> (r: Option<FanPart>)
    ensures
        r == spec_fan_part(name@, has_collider),
{
    if contains_sub(name, ("pusher").as_bytes()) && has_collider {
        Some(FanPart::Pusher)
    } else if contains_sub(name, ("fan.").as_bytes()) {
        Some(FanPart::Model)
    } else {
        None
    }
}

/// Whether `id` stands on an ancestor chain.
pub fn chain_contains(chain: &[u64], id: u64) -> (r: bool)
    ensures
        r == chain@.contains(id),
{
    let mut k: usize = 0;
    while k < chain.len()
        invariant
            k <= chain@.len(),
            forall|m: int| 0 <= m < k ==> chain@[m] != id,
        decreases chain@.len() - k,
    {
        if chain[k] == id {
            proof {
                assert(chain@[k as int] == id);
            }
            return true;
        }
        k = k + 1;
    }
    false
}

/// The keypad button a pointer-ray hit belongs to: the highest-numbered
/// button whose entity stands on the hit's ancestor chain.
pub open spec fn spec_button_on_chain(chain: Seq<u64>, buttons: Seq<u64>) -> Option<usize>
    decreases buttons.len(),
{
    if buttons.len() == 0 {
        None
    } else if chain.contains(buttons.last()) {
        Some((buttons.len() - 1) as usize)
    } else {
        spec_button_on_chain(chain, buttons.drop_last())
    }
}

/// Attribute a pointer-ray hit to a keypad button, given the hit's ancestor
/// chain and the button entities in digit order.
pub fn button_on_chain(chain: &[u64], buttons: &Vec<u64>) -> (r: Option<usize>)
    ensures
        r == spec_button_on_chain(chain@, buttons@),
{
    let mut j: usize = buttons.len();
    proof {
        assert(buttons@.take(buttons@.len() as int) =~= buttons@);
    }
    while j > 0
        invariant
            j <= buttons@.len(),
            spec_button_on_chain(chain@, buttons@) == spec_button_on_chain(
                chain@,
                buttons@.take(j as int),
            ),
        decreases j,
    {
        j = j - 1;
        proof {
            assert(buttons@.take(j + 1).last() == buttons@[j as int]);
            assert(buttons@.take(j + 1).drop_last() =~= buttons@.take(j as int));
        }
        if chain_contains(chain, buttons[j]) {
            proof {
                assert(buttons@.take(j + 1).len() == j + 1);
            }
            return Some(j);
        }
    }
    proof {
        assert(buttons@.take(0) =~= Seq::<u64>::empty());
    }
    None
}

/// The camera a wire-ray hit belongs to: the rootmost entity of the hit's
/// ancestor chain that is in the family. The chain runs from the hit entity
/// up to the scene root.
pub open spec fn spec_rootmost_in(chain: Seq<u64>, family: Seq<u64>) -> Option<u64>
    decreases chain.len(),
{
    if chain.len() == 0 {
        None
    } else if family.contains(chain.last()) {
        Some(chain.last())
    } else {
        spec_rootmost_in(chain.drop_last(), family)
    }
}

/// Attribute a wire-ray hit to the puzzle element that owns it, given the
/// hit's ancestor chain and the family of owning entities.
pub fn rootmost_in(chain: &[u64], family: &Vec<u64>) -> (r: Option<u64>)
    ensures
        r == spec_rootmost_in(chain@, family@),
{
    let mut j: usize = chain.len();
    proof {
        assert(chain@.take(chain@.len() as int) =~= chain@);
    }
    while j > 0
        invariant
            j <= chain@.len(),
            spec_rootmost_in(chain@, family@) == spec_rootmost_in(chain@.take(j as int), family@),
        decreases j,
    {
        j = j - 1;
        proof {
            assert(chain@.take(j + 1).last() == chain@[j as int]);
            assert(chain@.take(j + 1).drop_last() =~= chain@.take(j as int));
        }
        if chain_contains(family.as_slice(), chain[j]) {
            return Some(chain[j]);
        }
    }
    proof {
        assert(chain@.take(0) =~= Seq::<u64>::empty());
    }
    None
}

pub open spec fn spec_socket_sensor(name: Seq<u8>, has_collider: bool) -> bool {
    has_sub(name, ("sensor").spec_bytes()) && has_collider
}

/// Whether a socket descendant is the proximity sensor volume.
pub fn socket_sensor(name: &[u8], has_collider: bool) -> (r: bool)
    ensures
        r == spec_socket_sensor(name@, has_collider),
{
    contains_sub(name, ("sensor").as_bytes()) && has_collider
}

} // verus!
