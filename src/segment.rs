//! The planned segments that a schedule is computed from.
use vstd::prelude::*;

use crate::segment_type::SegmentType;
use crate::types::Depth;

verus! {

/// A planned segment: reach `depth` and stay there until `time` minutes have
/// passed since leaving the previous one, on an oxygen setpoint of
/// `setpoint` millibar.
#[derive(Clone, Copy, Debug)]
pub struct SegmentIn {
    pub segment_type: SegmentType,
    /// Depth below the surface.
    pub depth: Depth,
    /// Minutes, the ramp to `depth` included.
    pub time: i64,
    /// Oxygen setpoint, in millibar (rebreather only).
    pub setpoint: i64,
}

/// Why no schedule can be computed.
#[derive(Clone, Copy, Debug, PartialEq, Eq, Structural)]
pub enum PlanError {
    /// No planned segment was given.
    NoSegments,
}

impl SegmentIn {
    fn new(segment_type: SegmentType, depth: Depth, time: i64, setpoint: i64) -> (r: SegmentIn)
        ensures
            r == (SegmentIn { segment_type, depth, time, setpoint }),
    {
        SegmentIn { segment_type, depth, time, setpoint }
    }

    /// A level segment at `depth` for `time` minutes on `setpoint`.
    pub fn new_bottom(depth: Depth, time: i64, setpoint: i64) -> (r: SegmentIn)
        ensures
            r == (SegmentIn { segment_type: SegmentType::LEVEL, depth, time, setpoint }),
    {
        SegmentIn::new(SegmentType::LEVEL, depth, time, setpoint)
    }
}

/// A schedule needs at least one planned segment.
pub fn check_segments(segments: &Vec<SegmentIn>) -> (r: Result<(), PlanError>)
    ensures
        r is Err <==> segments.len() == 0,
        r matches Err(e) ==> e == PlanError::NoSegments,
{
    if segments.len() == 0 {
        Err(PlanError::NoSegments)
    } else {
        Ok(())
    }
}

} // verus!
