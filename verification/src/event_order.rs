//! The total order on site events.

use vstd::prelude::*;
use crate::orientation::{Orientation, OrientationTest, orientation};
use crate::point::Point;
use crate::site::{SiteEvent, VoronoiPredicates};

verus! {

/// The site-event order. Sites compare by the x of their leftmost point
/// first. At equal x, points come before segments, except that a point ties
/// into a vertical segment starting at or above it; among segments, vertical
/// ones come first, then the y of the leftmost point decides, and at equal y
/// the turn of (lhs.point1, lhs.point0, rhs.point1) does.
pub open spec fn event_less(lhs: SiteEvent, rhs: SiteEvent) -> bool {
    if lhs.point0_.x != rhs.point0_.x {
        lhs.point0_.x < rhs.point0_.x
    } else if !lhs.is_segment_ {
        if !rhs.is_segment_ {
            lhs.point0_.y < rhs.point0_.y
        } else if rhs.spec_is_vertical() {
            lhs.point0_.y <= rhs.point0_.y
        } else {
            true
        }
    } else {
        if rhs.spec_is_vertical() {
            if lhs.spec_is_vertical() {
                lhs.point0_.y < rhs.point0_.y
            } else {
                false
            }
        } else if lhs.spec_is_vertical() {
            true
        } else if lhs.point0_.y != rhs.point0_.y {
            lhs.point0_.y < rhs.point0_.y
        } else {
            orientation(lhs.point1_, lhs.point0_, rhs.point1_) == Orientation::LEFT
        }
    }
}

/// Decides the order of two site events.
pub struct EventComparisonPredicate {}

impl EventComparisonPredicate {
    /// True iff `lhs` comes strictly before `rhs` in the event order.
    pub fn event_comparison_predicate_bii(lhs: &SiteEvent, rhs: &SiteEvent) -> (r: bool)
        ensures
            r == event_less(*lhs, *rhs),
    {
        if lhs.x0() != rhs.x0() {
            return lhs.x0() < rhs.x0();
        }
        if !lhs.is_segment() {
            if !rhs.is_segment() {
                return lhs.y0() < rhs.y0();
            }
            if VoronoiPredicates::is_vertical_2(&rhs.point0_, &rhs.point1_) {
                return lhs.y0() <= rhs.y0();
            }
            true
        } else {
            if VoronoiPredicates::is_vertical_2(&rhs.point0_, &rhs.point1_) {
                if VoronoiPredicates::is_vertical_2(&lhs.point0_, &lhs.point1_) {
                    return lhs.y0() < rhs.y0();
                }
                return false;
            }
            if VoronoiPredicates::is_vertical_2(&lhs.point0_, &lhs.point1_) {
                return true;
            }
            if lhs.y0() != rhs.y0() {
                return lhs.y0() < rhs.y0();
            }
            OrientationTest::eval_3(lhs.point1(), lhs.point0(), rhs.point1())
                == Orientation::LEFT
        }
    }

    /// The event order as an `Ordering`; ties report as `Greater`, as the
    /// order is strict.
    pub fn event_comparison_predicate_ii(lhs: &SiteEvent, rhs: &SiteEvent) -> (r:
        core::cmp::Ordering)
        ensures
            r == (if event_less(*lhs, *rhs) {
                core::cmp::Ordering::Less
            } else {
                core::cmp::Ordering::Greater
            }),
    {
        if Self::event_comparison_predicate_bii(lhs, rhs) {
            core::cmp::Ordering::Less
        } else {
            core::cmp::Ordering::Greater
        }
    }
}

/// The event order is asymmetric on valid sites: two site events never each
/// precede the other, so events popped by this comparator cannot go back in
/// time. With totality over distinct valid sites this makes the schedule of
/// site events a strict order.
pub proof fn lemma_event_order_asymmetric(lhs: SiteEvent, rhs: SiteEvent)
    requires
        lhs.is_valid(),
        rhs.is_valid(),
    ensures
        !(event_less(lhs, rhs) && event_less(rhs, lhs)),
{
    if event_less(lhs, rhs) && event_less(rhs, lhs) {
        crate::orientation::lemma_orientation_reversal(lhs.point1_, lhs.point0_, rhs.point1_);
    }
}

/// Ordering of two rightward vectors by angle, via cross products, is
/// transitive: with positive x components, `uy*vx > ux*vy` and
/// `vy*wx > vx*wy` give `uy*wx > ux*wy`.
proof fn lemma_slope_transitive(
    ux: int,
    uy: int,
    vx: int,
    vy: int,
    wx: int,
    wy: int,
)
    by (nonlinear_arith)
    requires
        ux > 0,
        vx > 0,
        wx > 0,
        uy * vx > ux * vy,
        vy * wx > vx * wy,
    ensures
        uy * wx > ux * wy,
{
}

/// The event order is transitive on valid, non-inverse sites (the form in
/// which sites enter the event queue). With asymmetry, the site-event
/// schedule is a strict order: events cannot be consumed out of
/// non-decreasing order by a queue keyed by this comparator.
pub proof fn lemma_event_order_transitive(a: SiteEvent, b: SiteEvent, c: SiteEvent)
    requires
        a.is_valid(),
        b.is_valid(),
        c.is_valid(),
        !a.is_inverse_,
        !b.is_inverse_,
        !c.is_inverse_,
        event_less(a, b),
        event_less(b, c),
    ensures
        event_less(a, c),
{
    if a.point0_.x == b.point0_.x && b.point0_.x == c.point0_.x && a.is_segment_
        && b.is_segment_ && c.is_segment_ && !a.spec_is_vertical() && !b.spec_is_vertical()
        && !c.spec_is_vertical() && a.point0_.y == b.point0_.y && b.point0_.y == c.point0_.y {
        // Three sloped segments sharing their start point: the angle order
        // chains through the cross-product slope comparison.
        let o = a.point0_;
        assert(b.point0_ == o);
        assert(c.point0_ == o);
        let ux = a.point1_.x - o.x;
        let uy = a.point1_.y - o.y;
        let vx = b.point1_.x - o.x;
        let vy = b.point1_.y - o.y;
        let wx = c.point1_.x - o.x;
        let wy = c.point1_.y - o.y;
        assert(cross_pts_at(o, a.point1_, b.point1_) == uy * vx - ux * vy) by (nonlinear_arith)
            requires
                cross_pts_at(o, a.point1_, b.point1_) == (o.x - a.point1_.x) * (b.point1_.y
                    - o.y) - (o.y - a.point1_.y) * (b.point1_.x - o.x),
                ux == a.point1_.x - o.x,
                uy == a.point1_.y - o.y,
                vx == b.point1_.x - o.x,
                vy == b.point1_.y - o.y,
        ;
        assert(cross_pts_at(o, b.point1_, c.point1_) == vy * wx - vx * wy) by (nonlinear_arith)
            requires
                cross_pts_at(o, b.point1_, c.point1_) == (o.x - b.point1_.x) * (c.point1_.y
                    - o.y) - (o.y - b.point1_.y) * (c.point1_.x - o.x),
                vx == b.point1_.x - o.x,
                vy == b.point1_.y - o.y,
                wx == c.point1_.x - o.x,
                wy == c.point1_.y - o.y,
        ;
        assert(cross_pts_at(o, a.point1_, c.point1_) == uy * wx - ux * wy) by (nonlinear_arith)
            requires
                cross_pts_at(o, a.point1_, c.point1_) == (o.x - a.point1_.x) * (c.point1_.y
                    - o.y) - (o.y - a.point1_.y) * (c.point1_.x - o.x),
                ux == a.point1_.x - o.x,
                uy == a.point1_.y - o.y,
                wx == c.point1_.x - o.x,
                wy == c.point1_.y - o.y,
        ;
        lemma_slope_transitive(ux, uy, vx, vy, wx, wy);
    }
}

/// The orientation determinant of (p1, o, p2), with the shared point in the
/// middle, as the angle comparisons of the event order use it.
pub open spec fn cross_pts_at(o: Point, p1: Point, p2: Point) -> int {
    crate::orientation::cross_pts(p1, o, p2)
}

} // verus!
