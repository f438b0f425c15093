//! Input points and the total order on them.

use vstd::prelude::*;

verus! {

/// An input coordinate pair. Coordinates are 32-bit signed integers; every
/// arithmetic expression a predicate needs is evaluated exactly in a wider
/// integer type.
#[derive(Clone, Copy, PartialEq, Eq, Structural, Debug, Hash)]
pub struct Point {
    pub x: i32,
    pub y: i32,
}

/// The point order: p precedes q iff p.x < q.x, or p.x == q.x and p.y < q.y.
pub open spec fn point_lt(a: Point, b: Point) -> bool {
    a.x < b.x || (a.x == b.x && a.y < b.y)
}

impl Point {
    pub fn new(x: i32, y: i32) -> (r: Point)
        ensures
            r.x == x && r.y == y,
    {
        Point { x, y }
    }
}

/// Decides the point order used to pre-sort sites and to pick the
/// representative endpoint of a segment.
pub struct PointComparisonPredicate {}

impl PointComparisonPredicate {
    /// True iff `lhs` strictly precedes `rhs`: by x, then by y.
    pub fn point_comparison_predicate(lhs: &Point, rhs: &Point) -> (r: bool)
        ensures
            r == point_lt(*lhs, *rhs),
    {
        if lhs.x == rhs.x {
            lhs.y < rhs.y
        } else {
            lhs.x < rhs.x
        }
    }
}

} // verus!
