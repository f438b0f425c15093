//! Circle events: existence filters for a triple of adjacent arcs, the
//! dispatch over the triple's site kinds, and the exact rational center of a
//! point-point-point circle.

use vstd::prelude::*;
use crate::orientation::{Orientation, OrientationTest, cross_spec, lemma_mul_bound, orientation};
use crate::site::SiteEvent;

verus! {

/// Existence of a circumscribing circle for a point-point-point triple:
/// the three points must make a right turn.
pub open spec fn ppp_exists(site1: SiteEvent, site2: SiteEvent, site3: SiteEvent) -> bool {
    orientation(site1.point0_, site2.point0_, site3.point0_) == Orientation::RIGHT
}

/// Existence filter for a point-point-segment triple, with the segment at
/// position `segment_index` among the three arcs: signed orientations of the
/// two points against each segment endpoint, sharpened by the x order of the
/// two points, except that a segment spanning exactly the two points admits
/// no circle.
pub open spec fn pps_exists(
    site1: SiteEvent,
    site2: SiteEvent,
    site3: SiteEvent,
    segment_index: u64,
) -> bool {
    if segment_index != 2 {
        let orient1 = orientation(site1.point0_, site2.point0_, site3.point0_);
        let orient2 = orientation(site1.point0_, site2.point0_, site3.point1_);
        if segment_index == 1 && site1.point0_.x >= site2.point0_.x {
            orient1 == Orientation::RIGHT
        } else if segment_index == 3 && site2.point0_.x >= site1.point0_.x {
            orient2 == Orientation::RIGHT
        } else {
            orient1 == Orientation::RIGHT || orient2 == Orientation::RIGHT
        }
    } else {
        site3.point0_ != site1.point0_ || site3.point1_ != site2.point0_
    }
}

/// Existence filter for a point-segment-segment triple with the point at
/// position `point_index`: the two segment arcs must come from different
/// input segments, and for a middle point, co-inverse segments must wind to
/// the right around it.
pub open spec fn pss_exists(
    site1: SiteEvent,
    site2: SiteEvent,
    site3: SiteEvent,
    point_index: i32,
) -> bool {
    if site2.sorted_index_ == site3.sorted_index_ {
        false
    } else if point_index == 2 {
        if !site2.is_inverse_ && site3.is_inverse_ {
            false
        } else if site2.is_inverse_ == site3.is_inverse_ && orientation(
            site2.point0_,
            site1.point0_,
            site3.point1_,
        ) != Orientation::RIGHT {
            false
        } else {
            true
        }
    } else {
        true
    }
}

/// Existence filter for a segment-segment-segment triple: the three arcs
/// must come from pairwise distinct input segments. A triple whose outer
/// arcs belong to one segment is degenerate (the tangent circle's
/// denominator vanishes) and admits no circle event.
pub open spec fn sss_exists(site1: SiteEvent, site2: SiteEvent, site3: SiteEvent) -> bool {
    &&& site1.sorted_index_ != site2.sorted_index_
    &&& site2.sorted_index_ != site3.sorted_index_
    &&& site1.sorted_index_ != site3.sorted_index_
}

/// Early rejection of circle candidates, before any formation arithmetic.
pub struct CircleExistencePredicate {}

impl CircleExistencePredicate {
    pub fn ppp(site1: &SiteEvent, site2: &SiteEvent, site3: &SiteEvent) -> (r: bool)
        ensures
            r == ppp_exists(*site1, *site2, *site3),
    {
        OrientationTest::eval_3(site1.point0(), site2.point0(), site3.point0())
            == Orientation::RIGHT
    }

    pub fn pps(site1: &SiteEvent, site2: &SiteEvent, site3: &SiteEvent, segment_index: u64) -> (r:
        bool)
        ensures
            r == pps_exists(*site1, *site2, *site3, segment_index),
    {
        if segment_index != 2 {
            let orient1 = OrientationTest::eval_3(site1.point0(), site2.point0(), site3.point0());
            let orient2 = OrientationTest::eval_3(site1.point0(), site2.point0(), site3.point1());
            if segment_index == 1 && site1.x0() >= site2.x0() {
                if orient1 != Orientation::RIGHT {
                    return false;
                }
            } else if segment_index == 3 && site2.x0() >= site1.x0() {
                if orient2 != Orientation::RIGHT {
                    return false;
                }
            } else if orient1 != Orientation::RIGHT && orient2 != Orientation::RIGHT {
                return false;
            }
            true
        } else {
            (site3.point0_ != site1.point0_) || (site3.point1_ != site2.point0_)
        }
    }

    pub fn pss(site1: &SiteEvent, site2: &SiteEvent, site3: &SiteEvent, point_index: i32) -> (r:
        bool)
        ensures
            r == pss_exists(*site1, *site2, *site3, point_index),
    {
        if site2.sorted_index() == site3.sorted_index() {
            return false;
        }
        if point_index == 2i32 {
            if !site2.is_inverse() && site3.is_inverse() {
                return false;
            }
            if site2.is_inverse() == site3.is_inverse() && OrientationTest::eval_3(
                site2.point0(),
                site1.point0(),
                site3.point1(),
            ) != Orientation::RIGHT {
                return false;
            }
        }
        true
    }

    pub fn sss(site1: &SiteEvent, site2: &SiteEvent, site3: &SiteEvent) -> (r: bool)
        ensures
            r == sss_exists(*site1, *site2, *site3),
    {
        (site1.sorted_index() != site2.sorted_index()) && (site2.sorted_index()
            != site3.sorted_index()) && (site1.sorted_index() != site3.sorted_index())
    }
}

/// Which formation applies to a triple, after permuting its sites: the
/// points of a mixed triple come first, and the index names where the odd
/// site sat among the arcs.
#[derive(Clone, Copy, PartialEq, Eq, Structural, Debug)]
pub enum CircleCase {
    PPP,
    PPS { segment_index: u64 },
    PSS { point_index: i32 },
    SSS,
}

/// The formation dispatch, as a function of the three sites: the case and
/// the permutation of arguments the formation receives, or nothing when the
/// existence filter rejects the triple.
pub open spec fn circle_case(site1: SiteEvent, site2: SiteEvent, site3: SiteEvent)
    -> Option<CircleCase> {
    if !site1.is_segment_ {
        if !site2.is_segment_ {
            if !site3.is_segment_ {
                if ppp_exists(site1, site2, site3) {
                    Some(CircleCase::PPP)
                } else {
                    None
                }
            } else {
                if pps_exists(site1, site2, site3, 3) {
                    Some(CircleCase::PPS { segment_index: 3 })
                } else {
                    None
                }
            }
        } else if !site3.is_segment_ {
            if pps_exists(site1, site3, site2, 2) {
                Some(CircleCase::PPS { segment_index: 2 })
            } else {
                None
            }
        } else {
            if pss_exists(site1, site2, site3, 1) {
                Some(CircleCase::PSS { point_index: 1 })
            } else {
                None
            }
        }
    } else if !site2.is_segment_ {
        if !site3.is_segment_ {
            if pps_exists(site2, site3, site1, 1) {
                Some(CircleCase::PPS { segment_index: 1 })
            } else {
                None
            }
        } else {
            if pss_exists(site2, site1, site3, 2) {
                Some(CircleCase::PSS { point_index: 2 })
            } else {
                None
            }
        }
    } else if !site3.is_segment_ {
        if pss_exists(site3, site1, site2, 3) {
            Some(CircleCase::PSS { point_index: 3 })
        } else {
            None
        }
    } else {
        if sss_exists(site1, site2, site3) {
            Some(CircleCase::SSS)
        } else {
            None
        }
    }
}

/// Decides whether a circle event can exist for a triple of adjacent arcs,
/// and if so which formation builds it. A caller that forms the circle must
/// still apply the vertical-extent filter on the formed center downstream.
pub struct CircleFormationFunctor {}

impl CircleFormationFunctor {
    /// The existence decision of the circle formation dispatch: the case and
    /// argument order of the formation to run, or `None` when no circle
    /// event arises from the triple.
    pub fn circle_formation_case(site1: &SiteEvent, site2: &SiteEvent, site3: &SiteEvent) -> (r:
        Option<CircleCase>)
        ensures
            r == circle_case(*site1, *site2, *site3),
    {
        if !site1.is_segment() {
            if !site2.is_segment() {
                if !site3.is_segment() {
                    if CircleExistencePredicate::ppp(site1, site2, site3) {
                        Some(CircleCase::PPP)
                    } else {
                        None
                    }
                } else {
                    if CircleExistencePredicate::pps(site1, site2, site3, 3) {
                        Some(CircleCase::PPS { segment_index: 3 })
                    } else {
                        None
                    }
                }
            } else if !site3.is_segment() {
                if CircleExistencePredicate::pps(site1, site3, site2, 2) {
                    Some(CircleCase::PPS { segment_index: 2 })
                } else {
                    None
                }
            } else {
                if CircleExistencePredicate::pss(site1, site2, site3, 1) {
                    Some(CircleCase::PSS { point_index: 1 })
                } else {
                    None
                }
            }
        } else if !site2.is_segment() {
            if !site3.is_segment() {
                if CircleExistencePredicate::pps(site2, site3, site1, 1) {
                    Some(CircleCase::PPS { segment_index: 1 })
                } else {
                    None
                }
            } else {
                if CircleExistencePredicate::pss(site2, site1, site3, 2) {
                    Some(CircleCase::PSS { point_index: 2 })
                } else {
                    None
                }
            }
        } else if !site3.is_segment() {
            if CircleExistencePredicate::pss(site3, site1, site2, 3) {
                Some(CircleCase::PSS { point_index: 3 })
            } else {
                None
            }
        } else {
            if CircleExistencePredicate::sss(site1, site2, site3) {
                Some(CircleCase::SSS)
            } else {
                None
            }
        }
    }
}

/// The scaled squared distance from the rational point (cxn/den, cyn/den)
/// to (px, py): den*den times the true squared distance.
pub open spec fn scaled_sq_dist(cxn: int, cyn: int, den: int, px: int, py: int) -> int {
    (cxn - px * den) * (cxn - px * den) + (cyn - py * den) * (cyn - py * den)
}

/// The line constant of a segment site's supporting line a*y - b*x == c,
/// as stored (direction-sensitive): x0*y1 - y0*x1.
pub open spec fn seg_c(s: SiteEvent) -> int {
    s.point0_.x * s.point1_.y - s.point0_.y * s.point1_.x
}

/// The direction, line constant and squared length of one segment site, as
/// the exact circle of three segments consumes them.
#[derive(Clone, Copy, PartialEq, Eq, Structural, Debug)]
pub struct SssSiteCoefficients {
    pub a: i128,
    pub b: i128,
    pub c: i128,
    pub sq_len: i128,
}

/// The integer coefficient layer of the circle of three segment sites: per
/// site its line data, and for the denominator and the two center
/// coordinates the cyclic cross coefficients of the three-term
/// square-root-sum expressions that evaluate them.
#[derive(Clone, Copy, PartialEq, Eq, Structural, Debug)]
pub struct SssCoefficients {
    pub s1: SssSiteCoefficients,
    pub s2: SssSiteCoefficients,
    pub s3: SssSiteCoefficients,
    pub denom1: i128,
    pub denom2: i128,
    pub denom3: i128,
    pub cx1: i128,
    pub cx2: i128,
    pub cx3: i128,
    pub cy1: i128,
    pub cy2: i128,
    pub cy3: i128,
}

/// First factor of the discriminant of the collinear point-segment-segment
/// circle: the cross product of the first segment's traversal direction
/// (from its second stored endpoint to its first, as the formation walks
/// it) with the point's offset from that traversal's start.
pub open spec fn pss_collinear_f1(p: crate::point::Point, seg1: SiteEvent) -> int {
    let a = seg1.point0_.x - seg1.point1_.x;
    let b = seg1.point0_.y - seg1.point1_.y;
    a * (p.y - seg1.point1_.y) - b * (p.x - seg1.point1_.x)
}

/// Second factor of the collinear discriminant: the opposite-handed cross
/// of the same traversal direction with the point's offset from the second
/// segment's start.
pub open spec fn pss_collinear_f2(p: crate::point::Point, seg1: SiteEvent, seg2: SiteEvent)
    -> int {
    let a = seg1.point0_.x - seg1.point1_.x;
    let b = seg1.point0_.y - seg1.point1_.y;
    b * (p.x - seg2.point0_.x) - a * (p.y - seg2.point0_.y)
}

/// The exact integer layers of circle formation: the rational circumcircle
/// center of three points, the coefficient layer of the circle of three
/// segments, and the discriminant decision of the collinear
/// point-segment-segment circle.
pub struct ExactCircleFormationFunctor {}

impl ExactCircleFormationFunctor {
    /// The circumcircle center of the three points, exactly: returns
    /// (cx_num, cy_num, den) with center (cx_num/den, cy_num/den), where den
    /// is twice the orientation determinant of the triple. The returned
    /// point is equidistant from the three sites: the scaled squared
    /// distances to them agree exactly. A downstream consumer divides out
    /// the rationals at output precision.
    pub fn ppp(site1: &SiteEvent, site2: &SiteEvent, site3: &SiteEvent) -> (r: (i128, i128, i128))
        ensures
            r.2 == 2 * cross_spec(
                site1.point0_.x - site2.point0_.x,
                site2.point0_.x - site3.point0_.x,
                site1.point0_.y - site2.point0_.y,
                site2.point0_.y - site3.point0_.y,
            ),
            scaled_sq_dist(
                r.0 as int,
                r.1 as int,
                r.2 as int,
                site1.point0_.x as int,
                site1.point0_.y as int,
            ) == scaled_sq_dist(
                r.0 as int,
                r.1 as int,
                r.2 as int,
                site2.point0_.x as int,
                site2.point0_.y as int,
            ),
            scaled_sq_dist(
                r.0 as int,
                r.1 as int,
                r.2 as int,
                site2.point0_.x as int,
                site2.point0_.y as int,
            ) == scaled_sq_dist(
                r.0 as int,
                r.1 as int,
                r.2 as int,
                site3.point0_.x as int,
                site3.point0_.y as int,
            ),
    {
        let p1: crate::point::Point = site1.point0_;
        let p2: crate::point::Point = site2.point0_;
        let p3: crate::point::Point = site3.point0_;
        let dx0: i64 = (p1.x as i64) - (p2.x as i64);
        let dx1: i64 = (p2.x as i64) - (p3.x as i64);
        let dy0: i64 = (p1.y as i64) - (p2.y as i64);
        let dy1: i64 = (p2.y as i64) - (p3.y as i64);
        let sx0: i64 = (p1.x as i64) + (p2.x as i64);
        let sx1: i64 = (p2.x as i64) + (p3.x as i64);
        let sy0: i64 = (p1.y as i64) + (p2.y as i64);
        let sy1: i64 = (p2.y as i64) + (p3.y as i64);
        proof {
            lemma_mul_bound(dx0 as int, sx0 as int, 0x1_0000_0000, 0x1_0000_0000);
            lemma_mul_bound(dy0 as int, sy0 as int, 0x1_0000_0000, 0x1_0000_0000);
            lemma_mul_bound(dx1 as int, sx1 as int, 0x1_0000_0000, 0x1_0000_0000);
            lemma_mul_bound(dy1 as int, sy1 as int, 0x1_0000_0000, 0x1_0000_0000);
            lemma_mul_bound(dx0 as int, dy1 as int, 0x1_0000_0000, 0x1_0000_0000);
            lemma_mul_bound(dx1 as int, dy0 as int, 0x1_0000_0000, 0x1_0000_0000);
        }
        let numer1: i128 = (dx0 as i128) * (sx0 as i128) + (dy0 as i128) * (sy0 as i128);
        let numer2: i128 = (dx1 as i128) * (sx1 as i128) + (dy1 as i128) * (sy1 as i128);
        let den: i128 = 2 * ((dx0 as i128) * (dy1 as i128) - (dx1 as i128) * (dy0 as i128));
        proof {
            lemma_mul_bound(numer1 as int, dy1 as int, 0x2_0000_0000_0000_0000, 0x1_0000_0000);
            lemma_mul_bound(numer2 as int, dy0 as int, 0x2_0000_0000_0000_0000, 0x1_0000_0000);
            lemma_mul_bound(numer2 as int, dx0 as int, 0x2_0000_0000_0000_0000, 0x1_0000_0000);
            lemma_mul_bound(numer1 as int, dx1 as int, 0x2_0000_0000_0000_0000, 0x1_0000_0000);
        }
        let cxn: i128 = numer1 * (dy1 as i128) - numer2 * (dy0 as i128);
        let cyn: i128 = numer2 * (dx0 as i128) - numer1 * (dx1 as i128);
        proof {
            lemma_ppp_center_equidistant(
                p1.x as int,
                p1.y as int,
                p2.x as int,
                p2.y as int,
                p3.x as int,
                p3.y as int,
                cxn as int,
                cyn as int,
                den as int,
            );
        }
        (cxn, cyn, den)
    }

    /// The line data of one segment site: direction (a, b), line constant
    /// c, and squared length.
    fn site_coeffs(s: &SiteEvent) -> (r: (i64, i64, i128, i128))
        ensures
            r.0 == crate::distance::seg_a(*s),
            r.1 == crate::distance::seg_b(*s),
            r.2 == seg_c(*s),
            r.3 == crate::distance::seg_l(*s),
            -0x2_0000_0000 <= r.0 <= 0x2_0000_0000,
            -0x2_0000_0000 <= r.1 <= 0x2_0000_0000,
            -0x8000_0000_0000_0000 <= r.2 <= 0x8000_0000_0000_0000,
            0 <= r.3 <= 0x4_0000_0000_0000_0000,
    {
        let a: i64 = (s.point1_.x as i64) - (s.point0_.x as i64);
        let b: i64 = (s.point1_.y as i64) - (s.point0_.y as i64);
        let c: i128 = crate::orientation::robust_cross_product(
            s.point0_.x as i64,
            s.point0_.y as i64,
            s.point1_.x as i64,
            s.point1_.y as i64,
        );
        proof {
            lemma_mul_bound(
                s.point0_.x as int,
                s.point1_.y as int,
                0x8000_0000,
                0x8000_0000,
            );
            lemma_mul_bound(
                s.point0_.y as int,
                s.point1_.x as int,
                0x8000_0000,
                0x8000_0000,
            );
            lemma_mul_bound(a as int, a as int, 0x1_0000_0000, 0x1_0000_0000);
            lemma_mul_bound(b as int, b as int, 0x1_0000_0000, 0x1_0000_0000);
            assert(a as int * a as int >= 0) by (nonlinear_arith);
            assert(b as int * b as int >= 0) by (nonlinear_arith);
        }
        let sq_len: i128 = (a as i128) * (a as i128) + (b as i128) * (b as i128);
        (a, b, c, sq_len)
    }

    /// The sign of the discriminant of the collinear point-segment-segment
    /// circle: when a point arc sits between two arcs of parallel
    /// segments, the tangency parameter solves a quadratic whose
    /// discriminant is the product of the two cross products below. A
    /// negative sign means the quadratic has no real solution, so no
    /// circle event exists and the formation must reject the triple; the
    /// sign is decided exactly, without forming the wide product.
    pub fn pss_collinear_discriminant_sign(
        site1: &SiteEvent,
        site2: &SiteEvent,
        site3: &SiteEvent,
    ) -> (r: i8)
        ensures
            r as int == crate::exact_sign::isign(
                pss_collinear_f1(site1.point0_, *site2) * pss_collinear_f2(
                    site1.point0_,
                    *site2,
                    *site3,
                ),
            ),
    {
        let a: i64 = (site2.point0_.x as i64) - (site2.point1_.x as i64);
        let b: i64 = (site2.point0_.y as i64) - (site2.point1_.y as i64);
        let f1: i128 = crate::orientation::robust_cross_product(
            a,
            b,
            (site1.point0_.x as i64) - (site2.point1_.x as i64),
            (site1.point0_.y as i64) - (site2.point1_.y as i64),
        );
        let f2: i128 = crate::orientation::robust_cross_product(
            b,
            a,
            (site1.point0_.y as i64) - (site3.point0_.y as i64),
            (site1.point0_.x as i64) - (site3.point0_.x as i64),
        );
        proof {
            assert(f1 as int * f2 as int == 0 <==> (f1 == 0 || f2 == 0)) by (nonlinear_arith);
            assert(f1 as int * f2 as int > 0 <==> (f1 != 0 && f2 != 0 && ((f1 > 0) == (f2 > 0))))
                by (nonlinear_arith);
        }
        if f1 == 0 || f2 == 0 {
            0
        } else if (f1 > 0) == (f2 > 0) {
            1
        } else {
            -1
        }
    }

    /// The coefficient layer of the circle of three segment sites. For site
    /// i with line data (a_i, b_i, c_i) and cyclic successor j and
    /// predecessor k, the denominator coefficient is a_j*b_k - a_k*b_j and
    /// the center coefficients are a_j*c_k - a_k*c_j and b_j*c_k - b_k*c_j;
    /// in the three-term square-root-sum evaluation of the denominator and
    /// of the center coordinates, coefficient i pairs with the square root
    /// of site i's squared length.
    pub fn sss_coefficients(site1: &SiteEvent, site2: &SiteEvent, site3: &SiteEvent) -> (r:
        SssCoefficients)
        ensures
            r.s1.a == crate::distance::seg_a(*site1),
            r.s1.b == crate::distance::seg_b(*site1),
            r.s1.c == seg_c(*site1),
            r.s1.sq_len == crate::distance::seg_l(*site1),
            r.s2.a == crate::distance::seg_a(*site2),
            r.s2.b == crate::distance::seg_b(*site2),
            r.s2.c == seg_c(*site2),
            r.s2.sq_len == crate::distance::seg_l(*site2),
            r.s3.a == crate::distance::seg_a(*site3),
            r.s3.b == crate::distance::seg_b(*site3),
            r.s3.c == seg_c(*site3),
            r.s3.sq_len == crate::distance::seg_l(*site3),
            r.denom1 == crate::distance::seg_a(*site2) * crate::distance::seg_b(*site3)
                - crate::distance::seg_a(*site3) * crate::distance::seg_b(*site2),
            r.denom2 == crate::distance::seg_a(*site3) * crate::distance::seg_b(*site1)
                - crate::distance::seg_a(*site1) * crate::distance::seg_b(*site3),
            r.denom3 == crate::distance::seg_a(*site1) * crate::distance::seg_b(*site2)
                - crate::distance::seg_a(*site2) * crate::distance::seg_b(*site1),
            r.cx1 == crate::distance::seg_a(*site2) * seg_c(*site3) - crate::distance::seg_a(
                *site3,
            ) * seg_c(*site2),
            r.cx2 == crate::distance::seg_a(*site3) * seg_c(*site1) - crate::distance::seg_a(
                *site1,
            ) * seg_c(*site3),
            r.cx3 == crate::distance::seg_a(*site1) * seg_c(*site2) - crate::distance::seg_a(
                *site2,
            ) * seg_c(*site1),
            r.cy1 == crate::distance::seg_b(*site2) * seg_c(*site3) - crate::distance::seg_b(
                *site3,
            ) * seg_c(*site2),
            r.cy2 == crate::distance::seg_b(*site3) * seg_c(*site1) - crate::distance::seg_b(
                *site1,
            ) * seg_c(*site3),
            r.cy3 == crate::distance::seg_b(*site1) * seg_c(*site2) - crate::distance::seg_b(
                *site2,
            ) * seg_c(*site1),
    {
        let (a1, b1, c1, l1) = Self::site_coeffs(site1);
        let (a2, b2, c2, l2) = Self::site_coeffs(site2);
        let (a3, b3, c3, l3) = Self::site_coeffs(site3);
        let denom1 = crate::orientation::robust_cross_product(a2, a3, b2, b3);
        let denom2 = crate::orientation::robust_cross_product(a3, a1, b3, b1);
        let denom3 = crate::orientation::robust_cross_product(a1, a2, b1, b2);
        proof {
            lemma_mul_bound(a1 as int, c2 as int, 0x2_0000_0000, 0x8000_0000_0000_0000);
            lemma_mul_bound(a1 as int, c3 as int, 0x2_0000_0000, 0x8000_0000_0000_0000);
            lemma_mul_bound(a2 as int, c1 as int, 0x2_0000_0000, 0x8000_0000_0000_0000);
            lemma_mul_bound(a2 as int, c3 as int, 0x2_0000_0000, 0x8000_0000_0000_0000);
            lemma_mul_bound(a3 as int, c1 as int, 0x2_0000_0000, 0x8000_0000_0000_0000);
            lemma_mul_bound(a3 as int, c2 as int, 0x2_0000_0000, 0x8000_0000_0000_0000);
            lemma_mul_bound(b1 as int, c2 as int, 0x2_0000_0000, 0x8000_0000_0000_0000);
            lemma_mul_bound(b1 as int, c3 as int, 0x2_0000_0000, 0x8000_0000_0000_0000);
            lemma_mul_bound(b2 as int, c1 as int, 0x2_0000_0000, 0x8000_0000_0000_0000);
            lemma_mul_bound(b2 as int, c3 as int, 0x2_0000_0000, 0x8000_0000_0000_0000);
            lemma_mul_bound(b3 as int, c1 as int, 0x2_0000_0000, 0x8000_0000_0000_0000);
            lemma_mul_bound(b3 as int, c2 as int, 0x2_0000_0000, 0x8000_0000_0000_0000);
        }
        let cx1: i128 = (a2 as i128) * c3 - (a3 as i128) * c2;
        let cx2: i128 = (a3 as i128) * c1 - (a1 as i128) * c3;
        let cx3: i128 = (a1 as i128) * c2 - (a2 as i128) * c1;
        let cy1: i128 = (b2 as i128) * c3 - (b3 as i128) * c2;
        let cy2: i128 = (b3 as i128) * c1 - (b1 as i128) * c3;
        let cy3: i128 = (b1 as i128) * c2 - (b2 as i128) * c1;
        SssCoefficients {
            s1: SssSiteCoefficients { a: a1 as i128, b: b1 as i128, c: c1, sq_len: l1 },
            s2: SssSiteCoefficients { a: a2 as i128, b: b2 as i128, c: c2, sq_len: l2 },
            s3: SssSiteCoefficients { a: a3 as i128, b: b3 as i128, c: c3, sq_len: l3 },
            denom1,
            denom2,
            denom3,
            cx1,
            cx2,
            cx3,
            cy1,
            cy2,
            cy3,
        }
    }
}

/// The circumcenter numerators satisfy two linear equidistance equations,
/// and those force the scaled squared distances to the three defining
/// points to agree exactly.
#[verifier::rlimit(100)]
pub proof fn lemma_ppp_center_equidistant(
    x1: int,
    y1: int,
    x2: int,
    y2: int,
    x3: int,
    y3: int,
    cxn: int,
    cyn: int,
    den: int,
)
    requires
        ({
            let dx0 = x1 - x2;
            let dx1 = x2 - x3;
            let dy0 = y1 - y2;
            let dy1 = y2 - y3;
            let numer1 = dx0 * (x1 + x2) + dy0 * (y1 + y2);
            let numer2 = dx1 * (x2 + x3) + dy1 * (y2 + y3);
            &&& cxn == numer1 * dy1 - numer2 * dy0
            &&& cyn == numer2 * dx0 - numer1 * dx1
            &&& den == 2 * (dx0 * dy1 - dx1 * dy0)
        }),
    ensures
        scaled_sq_dist(cxn, cyn, den, x1, y1) == scaled_sq_dist(cxn, cyn, den, x2, y2),
        scaled_sq_dist(cxn, cyn, den, x2, y2) == scaled_sq_dist(cxn, cyn, den, x3, y3),
{
    let dx0 = x1 - x2;
    let dx1 = x2 - x3;
    let dy0 = y1 - y2;
    let dy1 = y2 - y3;
    let sx0 = x1 + x2;
    let sx1 = x2 + x3;
    let sy0 = y1 + y2;
    let sy1 = y2 + y3;
    let numer1 = dx0 * sx0 + dy0 * sy0;
    let numer2 = dx1 * sx1 + dy1 * sy1;
    let dd = dx0 * dy1 - dx1 * dy0;
    assert(dx0 * cxn + dy0 * cyn == numer1 * dd) by (nonlinear_arith)
        requires
            cxn == numer1 * dy1 - numer2 * dy0,
            cyn == numer2 * dx0 - numer1 * dx1,
            dd == dx0 * dy1 - dx1 * dy0,
    ;
    assert(dx1 * cxn + dy1 * cyn == numer2 * dd) by (nonlinear_arith)
        requires
            cxn == numer1 * dy1 - numer2 * dy0,
            cyn == numer2 * dx0 - numer1 * dx1,
            dd == dx0 * dy1 - dx1 * dy0,
    ;
    assert(den * numer1 == 2 * (numer1 * dd)) by (nonlinear_arith)
        requires
            den == 2 * dd,
    ;
    assert(den * numer2 == 2 * (numer2 * dd)) by (nonlinear_arith)
        requires
            den == 2 * dd,
    ;
    lemma_equidistant_pair(cxn, cyn, den, x1, y1, x2, y2, dx0 * cxn + dy0 * cyn, numer1);
    lemma_equidistant_pair(cxn, cyn, den, x2, y2, x3, y3, dx1 * cxn + dy1 * cyn, numer2);
}

/// For one pair of points: if `lin == (xa-xb)*cxn + (ya-yb)*cyn` and
/// `numer == (xa-xb)*(xa+xb) + (ya-yb)*(ya+yb)` satisfy
/// `den * numer == 2 * lin`, the scaled squared distances from
/// (cxn/den, cyn/den) to the two points agree.
proof fn lemma_equidistant_pair(
    cxn: int,
    cyn: int,
    den: int,
    xa: int,
    ya: int,
    xb: int,
    yb: int,
    lin: int,
    numer: int,
)
    requires
        lin == (xa - xb) * cxn + (ya - yb) * cyn,
        numer == (xa - xb) * (xa + xb) + (ya - yb) * (ya + yb),
        den * numer == 2 * lin,
    ensures
        scaled_sq_dist(cxn, cyn, den, xa, ya) == scaled_sq_dist(cxn, cyn, den, xb, yb),
{
    let a1 = cxn - xa * den;
    let a2 = cxn - xb * den;
    let b1 = cyn - ya * den;
    let b2 = cyn - yb * den;
    let u = 2 * cxn - (xa + xb) * den;
    let w = 2 * cyn - (ya + yb) * den;
    assert(a1 * a1 - a2 * a2 == (a1 - a2) * (a1 + a2)) by (nonlinear_arith);
    assert(b1 * b1 - b2 * b2 == (b1 - b2) * (b1 + b2)) by (nonlinear_arith);
    assert(a1 - a2 == (xb - xa) * den) by (nonlinear_arith)
        requires
            a1 == cxn - xa * den,
            a2 == cxn - xb * den,
    ;
    assert(a1 + a2 == u) by (nonlinear_arith)
        requires
            a1 == cxn - xa * den,
            a2 == cxn - xb * den,
            u == 2 * cxn - (xa + xb) * den,
    ;
    assert(b1 - b2 == (yb - ya) * den) by (nonlinear_arith)
        requires
            b1 == cyn - ya * den,
            b2 == cyn - yb * den,
    ;
    assert(b1 + b2 == w) by (nonlinear_arith)
        requires
            b1 == cyn - ya * den,
            b2 == cyn - yb * den,
            w == 2 * cyn - (ya + yb) * den,
    ;
    assert(((xb - xa) * den) * u == den * ((xb - xa) * u)) by (nonlinear_arith);
    assert(((yb - ya) * den) * w == den * ((yb - ya) * w)) by (nonlinear_arith);
    // The sum of the two factored differences is den times a linear form
    // that the hypotheses force to zero.
    assert((xb - xa) * u == -(2 * ((xa - xb) * cxn)) + den * ((xa - xb) * (xa + xb)))
        by (nonlinear_arith)
        requires
            u == 2 * cxn - (xa + xb) * den,
    ;
    assert((yb - ya) * w == -(2 * ((ya - yb) * cyn)) + den * ((ya - yb) * (ya + yb)))
        by (nonlinear_arith)
        requires
            w == 2 * cyn - (ya + yb) * den,
    ;
    let t1 = (xa - xb) * (xa + xb);
    let t2 = (ya - yb) * (ya + yb);
    assert(den * t1 + den * t2 == den * numer) by (nonlinear_arith)
        requires
            numer == t1 + t2,
    ;
    assert((xb - xa) * u + (yb - ya) * w == -(2 * lin) + den * numer);
    assert((xb - xa) * u + (yb - ya) * w == 0);
    assert(den * ((xb - xa) * u) + den * ((yb - ya) * w) == 0) by (nonlinear_arith)
        requires
            (xb - xa) * u + (yb - ya) * w == 0,
    ;
    assert(scaled_sq_dist(cxn, cyn, den, xa, ya) - scaled_sq_dist(cxn, cyn, den, xb, yb) == (a1
        * a1 - a2 * a2) + (b1 * b1 - b2 * b2));
}

} // verus!
