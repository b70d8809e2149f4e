//! Configuration of UI text overrides, and the memory of the positions that
//! position offsets are applied to.
use vstd::prelude::*;
use std::collections::HashMap;

verus! {

/// Text overrides for one UI element: its texts, font size, line spacing and
/// position offsets. `f32` values are held as their bit patterns. `text2` and the
/// `…2` offsets are for the element's second text component.
#[derive(Debug, Default)]
pub struct UITextConfig {
    pub text: Option<String>,
    pub text2: Option<String>,
    pub font_size: Option<i32>,
    pub line_spacing: Option<u32>,
    pub position_offset_x: Option<u32>,
    pub position_offset_y: Option<u32>,
    pub position_offset_x2: Option<u32>,
    pub position_offset_y2: Option<u32>,
}

/// Looking up the base of `key` at position `current`: the recorded base if there is
/// one, else `current`, which is recorded; with the recorded bases afterwards.
pub open spec fn base_lookup(bases: Map<usize, (u32, u32)>, key: usize, current: (u32, u32)) -> ((u32, u32), Map<usize, (u32, u32)>) {
    if bases.contains_key(key) {
        (bases[key], bases)
    } else {
        (current, bases.insert(key, current))
    }
}

/// The position (as `f32` bit patterns) that offsets are added to, recorded per
/// `RectTransform` address the first time an offset is applied to it, so that
/// applying an offset again does not move the element further.
pub struct PositionMemo {
    bases: HashMap<usize, (u32, u32)>,
}

impl PositionMemo {
    /// The recorded base positions.
    pub closed spec fn view(&self) -> Map<usize, (u32, u32)> {
        self.bases@
    }

    /// Nothing recorded.
    pub fn new() -> (r: Self)
        ensures
            r.view() == Map::<usize, (u32, u32)>::empty(),
    {
        PositionMemo { bases: HashMap::new() }
    }

    /// The base position of `key`: the recorded one if there is one, else `current`,
    /// which is recorded.
    pub fn base_position(&mut self, key: usize, current: (u32, u32)) -> (r: (u32, u32))
        ensures
            (r, final(self).view()) == base_lookup(old(self).view(), key, current),
    {
        broadcast use vstd::std_specs::hash::group_hash_axioms;
        match self.bases.get(&key) {
            Some(b) => *b,
            None => {
                self.bases.insert(key, current);
                current
            },
        }
    }
}

/// The base is recorded once: asking again for the same element gives the base of
/// the first lookup, whatever its current position is then, and records nothing.
pub proof fn lemma_base_recorded_once(
    bases: Map<usize, (u32, u32)>,
    key: usize,
    first: (u32, u32),
    later: (u32, u32),
)
    ensures
        base_lookup(base_lookup(bases, key, first).1, key, later) == (
            base_lookup(bases, key, first).0,
            base_lookup(bases, key, first).1,
        ),
{
}

} // verus!
