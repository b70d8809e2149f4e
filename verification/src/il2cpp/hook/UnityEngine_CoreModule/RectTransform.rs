//! Rect transforms: the axis along which a size is set.
use vstd::prelude::*;

verus! {

/// An axis of a rect transform, passed to the engine as 0 (horizontal) or 1
/// (vertical).
#[derive(Clone, Copy, Debug, PartialEq, Eq, Structural)]
pub enum Axis {
    Horizontal,
    Vertical,
}

impl Axis {
    /// The engine's number for the axis.
    #[verifier::allow_in_spec]
    pub fn value(&self) -> i32
        returns
            (match self {
                Axis::Horizontal => 0i32,
                Axis::Vertical => 1i32,
            }),
    {
        match self {
            Axis::Horizontal => 0,
            Axis::Vertical => 1,
        }
    }

    /// The axis the engine's number stands for, if any.
    #[verifier::allow_in_spec]
    pub fn from_value(v: i32) -> Option<Axis>
        returns
            (if v == 0 {
                Some(Axis::Horizontal)
            } else if v == 1 {
                Some(Axis::Vertical)
            } else {
                None
            }),
    {
        if v == 0 {
            Some(Axis::Horizontal)
        } else if v == 1 {
            Some(Axis::Vertical)
        } else {
            None
        }
    }
}

/// Each axis has its own number, and each number of an axis gives that axis back.
pub proof fn lemma_axis_value_roundtrip(a: Axis, v: i32)
    ensures
        Axis::from_value(a.value()) == Some(a),
        Axis::from_value(v) matches Some(b) ==> b.value() == v,
{
}

} // verus!
