//! Story choice buttons: a choice whose text spans several lines takes the
//! configured line spacing and offset; a single-line choice gets the default
//! layout back, since buttons are pooled and reused.
use vstd::prelude::*;
use crate::text::{chars_include, chars_of};

verus! {

/// The default line spacing of a choice label, `0.772` as an `f32` bit pattern.
pub const DEFAULT_LINE_SPACE_BITS: u32 = 0x3f45_a1cb;

/// The configured layout of multi-line choices (`f32` values as bit patterns).
#[derive(Clone, Copy, Debug, Default, PartialEq, Eq, Structural)]
pub struct StoryChoiceMultiLineConfig {
    pub line_spacing: Option<u32>,
    pub position_offset_x: Option<u32>,
    pub position_offset_y: Option<u32>,
}

/// The layout a choice label gets: a line spacing (kept as it is when `None`) and a
/// text offset, after which its position is updated.
#[derive(Clone, Copy, Debug, PartialEq, Eq, Structural)]
pub struct ChoiceTextLayout {
    pub line_space: Option<u32>,
    pub offset_x: u32,
    pub offset_y: u32,
}

/// The layout for a choice with text `text`: none without a configuration; the
/// configured one for a text with a line feed (absent offsets as `0.0`); the default
/// spacing and no offset otherwise.
pub open spec fn choice_layout_spec(text: Seq<char>, config: Option<StoryChoiceMultiLineConfig>) -> Option<ChoiceTextLayout> {
    match config {
        None => None,
        Some(c) => if text.contains('\n') {
            Some(ChoiceTextLayout {
                line_space: c.line_spacing,
                offset_x: match c.position_offset_x { Some(b) => b, None => 0 },
                offset_y: match c.position_offset_y { Some(b) => b, None => 0 },
            })
        } else {
            Some(ChoiceTextLayout { line_space: Some(DEFAULT_LINE_SPACE_BITS), offset_x: 0, offset_y: 0 })
        },
    }
}

/// The layout the labels of a choice button get for the text `text`.
pub fn choice_text_layout(text: &str, config: Option<StoryChoiceMultiLineConfig>) -> (r: Option<ChoiceTextLayout>)
    ensures
        r == choice_layout_spec(text@, config),
{
    match config {
        None => None,
        Some(c) => {
            let t = chars_of(text);
            if chars_include(&t, '\n') {
                Some(ChoiceTextLayout {
                    line_space: c.line_spacing,
                    offset_x: match c.position_offset_x { Some(b) => b, None => 0 },
                    offset_y: match c.position_offset_y { Some(b) => b, None => 0 },
                })
            } else {
                Some(ChoiceTextLayout { line_space: Some(DEFAULT_LINE_SPACE_BITS), offset_x: 0, offset_y: 0 })
            }
        },
    }
}

/// A pooled button is reset: whatever layout a multi-line text gave it, a
/// single-line text gets the same default layout.
pub proof fn lemma_single_line_reset(text: Seq<char>, c: StoryChoiceMultiLineConfig, d: StoryChoiceMultiLineConfig)
    requires
        !text.contains('\n'),
    ensures
        choice_layout_spec(text, Some(c)) == choice_layout_spec(text, Some(d)),
        choice_layout_spec(text, Some(c)) == Some(
            ChoiceTextLayout { line_space: Some(DEFAULT_LINE_SPACE_BITS), offset_x: 0, offset_y: 0 },
        ),
{
}


/// A multi-line choice takes the configured spacing and offsets (an absent offset
/// as 0.0, bit pattern 0); without a configuration nothing is laid out.
pub proof fn lemma_multi_line_layout(text: Seq<char>, c: StoryChoiceMultiLineConfig)
    requires
        text.contains('\n'),
    ensures
        choice_layout_spec(text, None) is None,
        choice_layout_spec(text, Some(c)) matches Some(l) && l.line_space == c.line_spacing
            && l.offset_x == (if c.position_offset_x is Some { c.position_offset_x->0 } else { 0 })
            && l.offset_y == (if c.position_offset_y is Some { c.position_offset_y->0 } else { 0 }),
{
}

} // verus!
