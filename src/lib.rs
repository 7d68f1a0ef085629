//! Decompression planning primitives for the Buhlmann ZH-L16 model with
//! gradient factors, on exact fixed-point units.
pub mod types;
pub mod segment_type;
pub mod gas;
pub mod dive;
pub mod otu_cns;
pub mod planner;
pub mod segment;

pub use types::{Depth, DepthChange, Pressure};
pub use segment_type::SegmentType;
pub use gas::Gas;
pub use dive::{Dive, DiveType, GradientFactor};
pub use planner::{Action, Phase, Planner};
pub use segment::{PlanError, SegmentIn};
