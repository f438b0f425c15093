//! Segment end points queued for the second half of a segment's processing,
//! keyed by the point order, reversed.

use vstd::prelude::*;
use crate::point::{Point, PointComparisonPredicate, point_lt};

verus! {

/// A stable handle into the beach line.
#[derive(Clone, Copy, PartialEq, Eq, Structural, Debug)]
pub struct BeachLineIndex(pub usize);

/// A segment end point paired with the beach-line position whose arc it
/// will close. Ordered by its point, reversed, so that a priority queue
/// keyed by it pops the smallest point first; the index does not take part
/// in the order.
#[derive(Debug)]
pub struct EndPointPair {
    pub site: Point,
    pub beachline_index: BeachLineIndex,
}

impl EndPointPair {
    pub fn new_2(first: Point, second: BeachLineIndex) -> (r: EndPointPair)
        ensures
            r.site == first,
            r.beachline_index == second,
    {
        EndPointPair { site: first, beachline_index: second }
    }

    /// The reversed point order: `Greater` when this point precedes the
    /// other, `Equal` at equal points, `Less` otherwise.
    pub fn cmp(&self, other: &EndPointPair) -> (r: core::cmp::Ordering)
        ensures
            r == (if point_lt(self.site, other.site) {
                core::cmp::Ordering::Greater
            } else if self.site == other.site {
                core::cmp::Ordering::Equal
            } else {
                core::cmp::Ordering::Less
            }),
    {
        if PointComparisonPredicate::point_comparison_predicate(&self.site, &other.site) {
            core::cmp::Ordering::Greater
        } else if self.site == other.site {
            core::cmp::Ordering::Equal
        } else {
            core::cmp::Ordering::Less
        }
    }
}

impl PartialEq for EndPointPair {
    /// End point pairs compare by their point alone.
    fn eq(&self, other: &EndPointPair) -> (r: bool) {
        self.site == other.site
    }
}

impl vstd::std_specs::cmp::PartialEqSpecImpl for EndPointPair {
    open spec fn obeys_eq_spec() -> bool {
        true
    }

    open spec fn eq_spec(&self, other: &EndPointPair) -> bool {
        self.site == other.site
    }
}

impl Eq for EndPointPair {}

impl PartialOrd for EndPointPair {
    fn partial_cmp(&self, other: &EndPointPair) -> (r: Option<core::cmp::Ordering>) {
        Some(self.cmp(other))
    }
}

impl vstd::std_specs::cmp::PartialOrdSpecImpl for EndPointPair {
    open spec fn obeys_partial_cmp_spec() -> bool {
        true
    }

    open spec fn partial_cmp_spec(&self, other: &EndPointPair) -> Option<core::cmp::Ordering> {
        if point_lt(self.site, other.site) {
            Some(core::cmp::Ordering::Greater)
        } else if self.site == other.site {
            Some(core::cmp::Ordering::Equal)
        } else {
            Some(core::cmp::Ordering::Less)
        }
    }
}

} // verus!
