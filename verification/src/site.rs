//! Input sites: point or segment features with stable integer coordinates.

use vstd::prelude::*;
use crate::point::{Point, point_lt};
use crate::orientation::{cross_spec, robust_cross_product};

verus! {

/// An input feature. A point site has equal endpoints; a segment site is
/// represented twice during construction, once per direction, and the
/// `is_inverse_` flag tells the two copies apart.
#[derive(Clone, Copy, PartialEq, Eq, Structural, Debug)]
pub struct SiteEvent {
    pub point0_: Point,
    pub point1_: Point,
    pub sorted_index_: usize,
    pub initial_index_: usize,
    pub is_segment_: bool,
    pub is_inverse_: bool,
}

impl SiteEvent {
    /// The site invariant: a point site has equal endpoints and is never
    /// inverse; a non-inverse segment's first endpoint precedes its second
    /// under the point order, an inverse segment's follows it.
    pub open spec fn is_valid(self) -> bool {
        &&& (!self.is_segment_ ==> self.point0_ == self.point1_ && !self.is_inverse_)
        &&& (self.is_segment_ && !self.is_inverse_ ==> point_lt(self.point0_, self.point1_))
        &&& (self.is_segment_ && self.is_inverse_ ==> point_lt(self.point1_, self.point0_))
    }

    /// A segment is vertical when its endpoints share their x coordinate.
    pub open spec fn spec_is_vertical(self) -> bool {
        self.point0_.x == self.point1_.x
    }

    /// A point site at `point`.
    pub fn new_point(point: Point, initial_index: usize) -> (r: SiteEvent)
        ensures
            r.point0_ == point,
            r.point1_ == point,
            r.initial_index_ == initial_index,
            r.sorted_index_ == 0,
            !r.is_segment_,
            !r.is_inverse_,
            r.is_valid(),
    {
        SiteEvent {
            point0_: point,
            point1_: point,
            sorted_index_: 0,
            initial_index_: initial_index,
            is_segment_: false,
            is_inverse_: false,
        }
    }

    /// A segment site from `a` to `b`, with `a` preceding `b` in point order.
    pub fn new_3(a: Point, b: Point, initial_index: usize) -> (r: SiteEvent)
        requires
            point_lt(a, b),
        ensures
            r.point0_ == a,
            r.point1_ == b,
            r.initial_index_ == initial_index,
            r.sorted_index_ == 0,
            r.is_segment_,
            !r.is_inverse_,
            r.is_valid(),
    {
        SiteEvent {
            point0_: a,
            point1_: b,
            sorted_index_: 0,
            initial_index_: initial_index,
            is_segment_: true,
            is_inverse_: false,
        }
    }

    pub fn point0(&self) -> (r: &Point)
        ensures
            *r == self.point0_,
    {
        &self.point0_
    }

    pub fn point1(&self) -> (r: &Point)
        ensures
            *r == self.point1_,
    {
        &self.point1_
    }

    pub fn x(&self) -> (r: i32)
        ensures
            r == self.point0_.x,
    {
        self.point0_.x
    }

    pub fn y(&self) -> (r: i32)
        ensures
            r == self.point0_.y,
    {
        self.point0_.y
    }

    pub fn x0(&self) -> (r: i32)
        ensures
            r == self.point0_.x,
    {
        self.point0_.x
    }

    pub fn y0(&self) -> (r: i32)
        ensures
            r == self.point0_.y,
    {
        self.point0_.y
    }

    pub fn x1(&self) -> (r: i32)
        ensures
            r == self.point1_.x,
    {
        self.point1_.x
    }

    pub fn y1(&self) -> (r: i32)
        ensures
            r == self.point1_.y,
    {
        self.point1_.y
    }

    pub fn is_segment(&self) -> (r: bool)
        ensures
            r == self.is_segment_,
    {
        self.is_segment_
    }

    pub fn is_inverse(&self) -> (r: bool)
        ensures
            r == self.is_inverse_,
    {
        self.is_inverse_
    }

    pub fn sorted_index(&self) -> (r: usize)
        ensures
            r == self.sorted_index_,
    {
        self.sorted_index_
    }

    pub fn set_sorted_index(&mut self, index: usize)
        ensures
            *final(self) == (SiteEvent { sorted_index_: index, ..*old(self) }),
    {
        self.sorted_index_ = index;
    }

    /// Swap the endpoints and flip the inverse flag; the other copy of a
    /// segment site. Preserves validity.
    pub fn inverse(&mut self)
        ensures
            final(self).point0_ == old(self).point1_,
            final(self).point1_ == old(self).point0_,
            final(self).is_inverse_ == !old(self).is_inverse_,
            final(self).is_segment_ == old(self).is_segment_,
            final(self).sorted_index_ == old(self).sorted_index_,
            final(self).initial_index_ == old(self).initial_index_,
            old(self).is_valid() && old(self).is_segment_ ==> final(self).is_valid(),
    {
        let tmp = self.point0_;
        self.point0_ = self.point1_;
        self.point1_ = tmp;
        self.is_inverse_ = !self.is_inverse_;
    }
}

/// Predicate utilities shared by the predicate family.
pub struct VoronoiPredicates {}

impl VoronoiPredicates {
    /// A site is vertical when its two endpoints share their x coordinate.
    pub fn is_vertical_1(site: &SiteEvent) -> (r: bool)
        ensures
            r == site.spec_is_vertical(),
    {
        Self::is_vertical_2(&site.point0_, &site.point1_)
    }

    pub fn is_vertical_2(point1: &Point, point2: &Point) -> (r: bool)
        ensures
            r == (point1.x == point2.x),
    {
        point1.x == point2.x
    }

    /// Exact cross product a1 * b2 - b1 * a2 of 32-bit inputs.
    pub fn robust_cross_product(a1: i32, b1: i32, a2: i32, b2: i32) -> (r: i128)
        ensures
            r == cross_spec(a1 as int, b1 as int, a2 as int, b2 as int),
    {
        robust_cross_product(a1 as i64, b1 as i64, a2 as i64, b2 as i64)
    }

    /// Exact cross product of 33-bit differences.
    pub fn robust_cross_product_2i(a1: i64, b1: i64, a2: i64, b2: i64) -> (r: i128)
        requires
            -0x2_0000_0000 <= a1 <= 0x2_0000_0000,
            -0x2_0000_0000 <= b1 <= 0x2_0000_0000,
            -0x2_0000_0000 <= a2 <= 0x2_0000_0000,
            -0x2_0000_0000 <= b2 <= 0x2_0000_0000,
        ensures
            r == cross_spec(a1 as int, b1 as int, a2 as int, b2 as int),
    {
        robust_cross_product(a1, b1, a2, b2)
    }

    /// The threshold, in units in the last place, past which a 64-bit floating
    /// estimate must be recomputed exactly.
    pub fn ulps() -> (r: u64)
        ensures
            r == crate::ULPS,
    {
        crate::ULPS
    }
}

} // verus!
