use vstd::prelude::*;

verus! {

/// Direction of a dive segment.
#[derive(Clone, Copy, Debug, PartialEq, Eq, Structural)]
pub enum SegmentType {
    DOWN,
    LEVEL,
    UP,
}

} // verus!
