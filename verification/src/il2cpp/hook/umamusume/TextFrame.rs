//! Text frames (the message windows of stories): each frame is set up once, its
//! label's original line spacing is remembered, and that spacing is what the
//! configured multiplier is applied to whenever the label is laid out again.
use vstd::prelude::*;
use fnv::FnvHashMap;
use crate::fnv_collections::{addr_map_contains_key, addr_map_get, addr_map_insert};

verus! {

/// The spacing to re-apply to the label `text`: its remembered original spacing,
/// provided the label belongs to a known frame.
pub open spec fn tracked_spacing(frame_of: Map<usize, usize>, spacing: Map<usize, u32>, text: usize) -> Option<u32> {
    if frame_of.contains_key(text) && spacing.contains_key(text) {
        Some(spacing[text])
    } else {
        None
    }
}

/// Registering `frame` with `handle` among the frames set up so far: whether it is
/// new, and the frames set up afterwards (a frame already there keeps its handle).
pub open spec fn registration(processed: Map<usize, u32>, frame: usize, handle: u32) -> (bool, Map<usize, u32>) {
    if processed.contains_key(frame) {
        (false, processed)
    } else {
        (true, processed.insert(frame, handle))
    }
}

/// The frames set up so far and what is known of their labels, all by address.
/// Line spacings are `f32` bit patterns; a frame's value is the weak GC handle
/// that was taken on it.
pub struct TextFrameTracker {
    processed: FnvHashMap<usize, u32>,
    text_to_frame: FnvHashMap<usize, usize>,
    original_line_spacing: FnvHashMap<usize, u32>,
}

impl TextFrameTracker {
    /// The frames set up so far, with the handle taken on each.
    pub closed spec fn processed(&self) -> Map<usize, u32> {
        self.processed@
    }

    /// The frame of each known label.
    pub closed spec fn frame_of(&self) -> Map<usize, usize> {
        self.text_to_frame@
    }

    /// The original line spacing of each known label.
    pub closed spec fn original_spacing(&self) -> Map<usize, u32> {
        self.original_line_spacing@
    }

    /// Nothing known yet.
    pub fn new() -> (r: Self)
        ensures
            r.processed() == Map::<usize, u32>::empty(),
            r.frame_of() == Map::<usize, usize>::empty(),
            r.original_spacing() == Map::<usize, u32>::empty(),
    {
        TextFrameTracker {
            processed: FnvHashMap::default(),
            text_to_frame: FnvHashMap::default(),
            original_line_spacing: FnvHashMap::default(),
        }
    }

}

/// Records the frame as set up, keeping `handle` on it, unless it already was;
/// tells whether it is new (only a new frame gets its label set up).
pub fn register_text_frame(tracker: &mut TextFrameTracker, frame: usize, handle: u32) -> (r: bool)
    ensures
        (r, final(tracker).processed()) == registration(old(tracker).processed(), frame, handle),
        final(tracker).frame_of() == old(tracker).frame_of(),
        final(tracker).original_spacing() == old(tracker).original_spacing(),
{
    if addr_map_contains_key(&tracker.processed, frame) {
        return false;
    }
    addr_map_insert(&mut tracker.processed, frame, handle);
    true
}

/// Remembers the label of a frame and its original line spacing, which is the
/// spacing the multiplier is then applied to.
pub fn initialize_text_label(tracker: &mut TextFrameTracker, frame: usize, text_label: usize, original_spacing: u32)
    ensures
        final(tracker).processed() == old(tracker).processed(),
        final(tracker).frame_of() == old(tracker).frame_of().insert(text_label, frame),
        final(tracker).original_spacing() == old(tracker).original_spacing().insert(text_label, original_spacing),
{
    addr_map_insert(&mut tracker.original_line_spacing, text_label, original_spacing);
    addr_map_insert(&mut tracker.text_to_frame, text_label, frame);
}

/// The original spacing to apply the multiplier to again, when `text` is the
/// label of a known frame; `None` for any other text component.
pub fn reapply_line_spacing_if_tracked(tracker: &TextFrameTracker, text: usize) -> (r: Option<u32>)
    ensures
        r == tracked_spacing(tracker.frame_of(), tracker.original_spacing(), text),
{
    if !addr_map_contains_key(&tracker.text_to_frame, text) {
        return None;
    }
    match addr_map_get(&tracker.original_line_spacing, text) {
        Some(s) => Some(*s),
        None => None,
    }
}

/// A frame is set up once: once registered, registering it again says no and
/// changes nothing, and the frame keeps the handle of its first registration.
pub proof fn lemma_frame_registered_once(processed: Map<usize, u32>, frame: usize, first: u32, second: u32)
    ensures
        registration(registration(processed, frame, first).1, frame, second) == (
            false,
            registration(processed, frame, first).1,
        ),
        registration(processed, frame, first).1[frame] == if processed.contains_key(frame) {
            processed[frame]
        } else {
            first
        },
{
}

/// After a label is set up with an original spacing, re-applying on that label
/// uses that spacing, and labels not set up are left alone.
pub proof fn lemma_reapply_after_initialize(
    frame_of: Map<usize, usize>,
    spacing: Map<usize, u32>,
    frame: usize,
    text: usize,
    original: u32,
    other: usize,
)
    ensures
        tracked_spacing(frame_of.insert(text, frame), spacing.insert(text, original), text) == Some(original),
        !frame_of.contains_key(other) && other != text ==> tracked_spacing(
            frame_of.insert(text, frame),
            spacing.insert(text, original),
            other,
        ) is None,
{
}

} // verus!
