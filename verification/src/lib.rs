//! Core of a sweepline construction of Voronoi diagrams of integer point and
//! segment sites: exact geometric predicates (point, event and beach-line node
//! ordering, distance comparison), circle-event existence and formation.
//!
//! Every predicate decides its question exactly, over mathematical integers;
//! comparisons whose exact value exceeds the native integer width are carried
//! out in arbitrary precision. Each public function's contract pins its
//! result to a function of its arguments alone, so a construction driven by
//! these predicates is deterministic in the sorted input.

use vstd::prelude::*;

mod circle;
mod distance;
mod endpoint;
mod event_order;
mod exact_sign;
mod input;
mod node_order;
mod orientation;
mod point;
mod site;

pub use circle::CircleCase;
pub use circle::CircleExistencePredicate;
pub use circle::CircleFormationFunctor;
pub use circle::ExactCircleFormationFunctor;
pub use circle::SssCoefficients;
pub use circle::SssSiteCoefficients;
pub use distance::DistancePredicate;
pub use distance::KPredicateResult;
pub use endpoint::BeachLineIndex;
pub use endpoint::EndPointPair;
pub use event_order::EventComparisonPredicate;
pub use input::Segment;
pub use input::to_points;
pub use input::to_segments;
pub use node_order::BeachLineNodeKey;
pub use node_order::NodeComparisonPredicate;
pub use orientation::Orientation;
pub use orientation::OrientationTest;
pub use point::Point;
pub use point::PointComparisonPredicate;
pub use site::SiteEvent;
pub use site::VoronoiPredicates;

verus! {

/// Relative-error threshold, in units in the last place, that gates how far a
/// 64-bit floating estimate of a circle event may drift before a consumer must
/// recompute it exactly.
pub const ULPS: u64 = 128;

} // verus!
