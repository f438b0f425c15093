//! The order on beach-line nodes.
//!
//! A beach-line node key is the pair of sites whose bisector bounds an arc;
//! nodes compare by the y coordinate at which their arcs' intersection meets
//! the sweepline. One of the two nodes always carries the site being
//! inserted, so the comparison can route through the distance predicate,
//! with integer tie-breaking when both comparison points share their x.

use vstd::prelude::*;
use crate::distance::{DistancePredicate, distance_less};
use crate::point::{Point, point_lt};
use crate::site::SiteEvent;

verus! {

/// A beach-line node key: the ordered pair of sites bounding an arc.
#[derive(Clone, Copy, PartialEq, Eq, Structural, Debug)]
pub struct BeachLineNodeKey {
    pub left_site_: SiteEvent,
    pub right_site_: SiteEvent,
}

impl BeachLineNodeKey {
    pub fn new_2(left_site: SiteEvent, right_site: SiteEvent) -> (r: BeachLineNodeKey)
        ensures
            r.left_site_ == left_site,
            r.right_site_ == right_site,
    {
        BeachLineNodeKey { left_site_: left_site, right_site_: right_site }
    }

    pub fn left_site(&self) -> (r: &SiteEvent)
        ensures
            *r == self.left_site_,
    {
        &self.left_site_
    }

    pub fn right_site(&self) -> (r: &SiteEvent)
        ensures
            *r == self.right_site_,
    {
        &self.right_site_
    }
}

/// The newer of a node's two sites: the one inserted later.
pub open spec fn comparison_site(node: BeachLineNodeKey) -> SiteEvent {
    if node.left_site_.sorted_index_ > node.right_site_.sorted_index_ {
        node.left_site_
    } else {
        node.right_site_
    }
}

/// The representative point of a site: the smaller endpoint in point order.
pub open spec fn comparison_point(site: SiteEvent) -> Point {
    if point_lt(site.point0_, site.point1_) {
        site.point0_
    } else {
        site.point1_
    }
}

/// The y coordinate and direction tag a node contributes to the integer
/// tie-break. The direction encodes which arc of the node the y refers to.
pub open spec fn comparison_y(node: BeachLineNodeKey, is_new_node: bool) -> (int, int) {
    if node.left_site_.sorted_index_ == node.right_site_.sorted_index_ {
        (node.left_site_.point0_.y as int, 0)
    } else if node.left_site_.sorted_index_ > node.right_site_.sorted_index_ {
        if !is_new_node && node.left_site_.is_segment_ && node.left_site_.spec_is_vertical() {
            (node.left_site_.point0_.y as int, 1)
        } else {
            (node.left_site_.point1_.y as int, 1)
        }
    } else {
        (node.right_site_.point0_.y as int, -1)
    }
}

/// The beach-line node order: nodes whose arcs intersect the sweepline at a
/// smaller y come first. The node holding the newer site hands its
/// comparison point to the other node's distance predicate; nodes whose
/// comparison points share an x tie-break on integer data.
pub open spec fn node_less(node1: BeachLineNodeKey, node2: BeachLineNodeKey) -> bool {
    let site1 = comparison_site(node1);
    let site2 = comparison_site(node2);
    let point1 = comparison_point(site1);
    let point2 = comparison_point(site2);
    if point1.x < point2.x {
        distance_less(node1.left_site_, node1.right_site_, point2)
    } else if point1.x > point2.x {
        !distance_less(node2.left_site_, node2.right_site_, point1)
    } else {
        if site1.sorted_index_ == site2.sorted_index_ {
            let y1 = comparison_y(node1, true);
            let y2 = comparison_y(node2, true);
            y1.0 < y2.0 || (y1.0 == y2.0 && y1.1 < y2.1)
        } else if site1.sorted_index_ < site2.sorted_index_ {
            let y1 = comparison_y(node1, false);
            let y2 = comparison_y(node2, true);
            if y1.0 != y2.0 {
                y1.0 < y2.0
            } else if !site1.is_segment_ {
                y1.1 < 0
            } else {
                false
            }
        } else {
            let y1 = comparison_y(node1, true);
            let y2 = comparison_y(node2, false);
            if y1.0 != y2.0 {
                y1.0 < y2.0
            } else if !site2.is_segment_ {
                y2.1 > 0
            } else {
                true
            }
        }
    }
}

/// The node order never puts a node before itself.
pub proof fn lemma_node_order_irreflexive(node: BeachLineNodeKey)
    ensures
        !node_less(node, node),
{
}

/// The node order is asymmetric: two beach-line nodes never each precede
/// the other. With the routing of both comparisons through one distance
/// predicate this keeps the keys in a search tree strictly ordered, one
/// half of the beach line's well-ordering.
pub proof fn lemma_node_order_asymmetric(node1: BeachLineNodeKey, node2: BeachLineNodeKey)
    ensures
        !(node_less(node1, node2) && node_less(node2, node1)),
{
}

/// Decides the order of two beach-line nodes at the current sweepline.
pub struct NodeComparisonPredicate {}

impl NodeComparisonPredicate {
    /// True iff `node1` comes before `node2`: its arc intersection lies at a
    /// smaller y at the sweepline.
    pub fn node_comparison_predicate(node1: &BeachLineNodeKey, node2: &BeachLineNodeKey) -> (r:
        bool)
        ensures
            r == node_less(*node1, *node2),
    {
        let site1 = Self::get_comparison_site(node1);
        let site2 = Self::get_comparison_site(node2);
        let point1 = Self::get_comparison_point(site1);
        let point2 = Self::get_comparison_point(site2);
        let p1 = *point1;
        let p2 = *point2;
        let s1 = *site1;
        let s2 = *site2;
        if p1.x < p2.x {
            DistancePredicate::distance_predicate(
                node1.left_site(),
                node1.right_site(),
                &p2,
            )
        } else if p1.x > p2.x {
            !DistancePredicate::distance_predicate(
                node2.left_site(),
                node2.right_site(),
                &p1,
            )
        } else {
            if s1.sorted_index_ == s2.sorted_index_ {
                let y1 = Self::get_comparison_y(node1, true);
                let y2 = Self::get_comparison_y(node2, true);
                y1.0 < y2.0 || (y1.0 == y2.0 && y1.1 < y2.1)
            } else if s1.sorted_index_ < s2.sorted_index_ {
                let y1 = Self::get_comparison_y(node1, false);
                let y2 = Self::get_comparison_y(node2, true);
                if y1.0 != y2.0 {
                    y1.0 < y2.0
                } else if !s1.is_segment_ {
                    y1.1 < 0
                } else {
                    false
                }
            } else {
                let y1 = Self::get_comparison_y(node1, true);
                let y2 = Self::get_comparison_y(node2, false);
                if y1.0 != y2.0 {
                    y1.0 < y2.0
                } else if !s2.is_segment_ {
                    y2.1 > 0
                } else {
                    true
                }
            }
        }
    }

    /// The newer site of a node.
    pub fn get_comparison_site(node: &BeachLineNodeKey) -> (r: &SiteEvent)
        ensures
            *r == comparison_site(*node),
    {
        if node.left_site_.sorted_index_ > node.right_site_.sorted_index_ {
            &node.left_site_
        } else {
            &node.right_site_
        }
    }

    /// The representative point of a site.
    pub fn get_comparison_point(site: &SiteEvent) -> (r: &Point)
        ensures
            *r == comparison_point(*site),
    {
        if crate::point::PointComparisonPredicate::point_comparison_predicate(
            site.point0(),
            site.point1(),
        ) {
            &site.point0_
        } else {
            &site.point1_
        }
    }

    /// The y coordinate and direction tag of a node for the tie-break.
    pub fn get_comparison_y(node: &BeachLineNodeKey, is_new_node: bool) -> (r: (i32, i8))
        ensures
            r.0 as int == comparison_y(*node, is_new_node).0,
            r.1 as int == comparison_y(*node, is_new_node).1,
    {
        if node.left_site_.sorted_index_ == node.right_site_.sorted_index_ {
            return (node.left_site_.point0_.y, 0);
        }
        if node.left_site_.sorted_index_ > node.right_site_.sorted_index_ {
            if !is_new_node && node.left_site_.is_segment_
                && node.left_site_.point0_.x == node.left_site_.point1_.x {
                return (node.left_site_.point0_.y, 1);
            }
            return (node.left_site_.point1_.y, 1);
        }
        (node.right_site_.point0_.y, -1)
    }
}

} // verus!
