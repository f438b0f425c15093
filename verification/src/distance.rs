//! The distance predicate: decides whether a horizontal line through a new
//! site strikes the right arc of a beach-line node before the left arc.
//!
//! An arc of a point site at horizontal distance dx (site minus sweep) and
//! vertical offset dy from the query point lies at signed offset
//! (dx*dx + dy*dy) / (2*dx) from the sweepline; an arc of a non-vertical
//! segment site lies at cross / (b + sqrt(a*a + b*b)) where (a, b) is the
//! segment vector and cross the cross product of the segment vector with the
//! query point offset; an arc of a vertical segment lies at half the signed
//! x distance. All comparisons between such offsets are decided exactly.

use vstd::prelude::*;
use crate::exact_sign::{sign_root1, sign_root2, eval_sign_root1, eval_sign_root2};
use crate::orientation::{
    Orientation, OrientationTest, cross_spec, lemma_mul_bound, orientation, orient_of,
    robust_cross_product,
};
use crate::point::Point;
use crate::site::{SiteEvent, VoronoiPredicates};

verus! {

/// Result of an epsilon-free fast path: either a decision, or a hand-off to
/// the exact comparison.
#[derive(Clone, Copy, PartialEq, Eq, Structural, Debug)]
pub enum KPredicateResult {
    LESS,
    UNDEFINED,
    MORE,
}

/// Exact comparison n1/m1 < n2/m2 of two signed rationals, with a zero
/// denominator read as an infinity of the numerator's sign and 0/0 never
/// comparing less (the arc of a site on the sweepline is infinitely far, and
/// a query at the site itself decides nothing).
pub open spec fn rat_lt(n1: int, m1: int, n2: int, m2: int) -> bool {
    if (n1 == 0 && m1 == 0) || (n2 == 0 && m2 == 0) {
        false
    } else if m1 == 0 {
        n1 < 0 && !(m2 == 0 && n2 < 0)
    } else if m2 == 0 {
        n2 > 0
    } else if m1 * m2 > 0 {
        n1 * m2 < n2 * m1
    } else {
        n1 * m2 > n2 * m1
    }
}

/// Numerator of the point-arc offset: dx*dx + dy*dy.
pub open spec fn point_arc_n(p: Point, k: Point) -> int {
    (p.x - k.x) * (p.x - k.x) + (p.y - k.y) * (p.y - k.y)
}

/// Denominator of the point-arc offset: 2*dx.
pub open spec fn point_arc_m(p: Point, k: Point) -> int {
    2 * (p.x - k.x)
}

/// The segment vector's x component, as stored (direction-sensitive).
pub open spec fn seg_a(s: SiteEvent) -> int {
    s.point1_.x - s.point0_.x
}

/// The segment vector's y component, as stored (direction-sensitive).
pub open spec fn seg_b(s: SiteEvent) -> int {
    s.point1_.y - s.point0_.y
}

/// The squared segment length a*a + b*b.
pub open spec fn seg_l(s: SiteEvent) -> int {
    seg_a(s) * seg_a(s) + seg_b(s) * seg_b(s)
}

/// Cross product of the segment vector with the query point's offset from
/// the segment start.
pub open spec fn seg_cross(s: SiteEvent, k: Point) -> int {
    seg_a(s) * (k.y - s.point0_.y) - seg_b(s) * (k.x - s.point0_.x)
}

/// Point arc n1/m1 against non-vertical segment arc cross/(b + sqrt(l)).
/// The segment denominator is positive, so cross-multiplying flips the
/// comparison exactly when m1 is negative, leaving the sign of
/// n1*sqrt(l) - (cross*m1 - n1*b).
pub open spec fn pt_seg_dist_lt(n1: int, m1: int, cross: int, b: int, l: int) -> bool {
    if m1 == 0 {
        false
    } else if m1 > 0 {
        sign_root1(n1, l, cross * m1 - n1 * b) < 0
    } else {
        sign_root1(n1, l, cross * m1 - n1 * b) > 0
    }
}

/// The point-point distance predicate: monotone shortcuts by the relative
/// position of the two foci, a pure integer midpoint test at equal x, and
/// the exact rational comparison otherwise.
pub open spec fn pp_less(left: SiteEvent, right: SiteEvent, k: Point) -> bool {
    let lp = left.point0_;
    let rp = right.point0_;
    if lp.x > rp.x {
        if k.y <= lp.y {
            false
        } else {
            rat_lt(point_arc_n(lp, k), point_arc_m(lp, k), point_arc_n(rp, k), point_arc_m(rp, k))
        }
    } else if lp.x < rp.x {
        if k.y >= rp.y {
            true
        } else {
            rat_lt(point_arc_n(lp, k), point_arc_m(lp, k), point_arc_n(rp, k), point_arc_m(rp, k))
        }
    } else {
        lp.y + rp.y < 2 * k.y
    }
}

/// The decided branches of the point-segment fast path: orientation against
/// the segment, the vertical-segment shortcuts, and the one-sided
/// orientation test against the focus. Everything else hands off to the
/// exact comparison.
pub open spec fn fast_ps_spec(left: SiteEvent, right: SiteEvent, k: Point, reverse: bool)
    -> KPredicateResult {
    let sp = left.point0_;
    let s0 = right.point0_;
    let s1 = right.point1_;
    if orientation(s0, s1, k) != Orientation::RIGHT {
        if !right.is_inverse_ {
            KPredicateResult::LESS
        } else {
            KPredicateResult::MORE
        }
    } else if right.spec_is_vertical() {
        if k.y < sp.y && !reverse {
            KPredicateResult::MORE
        } else if k.y > sp.y && reverse {
            KPredicateResult::LESS
        } else {
            KPredicateResult::UNDEFINED
        }
    } else {
        let o = orient_of(
            cross_spec(seg_a(right), seg_b(right), k.x - sp.x, k.y - sp.y),
        );
        if o == Orientation::LEFT {
            if !right.is_inverse_ {
                if reverse {
                    KPredicateResult::LESS
                } else {
                    KPredicateResult::UNDEFINED
                }
            } else {
                if reverse {
                    KPredicateResult::UNDEFINED
                } else {
                    KPredicateResult::MORE
                }
            }
        } else {
            KPredicateResult::UNDEFINED
        }
    }
}

/// The point-segment distance predicate; `reverse` says the roles were
/// swapped by the caller, and flips the exact comparison.
pub open spec fn ps_less(left: SiteEvent, right: SiteEvent, k: Point, reverse: bool) -> bool {
    let fast = fast_ps_spec(left, right, k, reverse);
    if fast != KPredicateResult::UNDEFINED {
        fast == KPredicateResult::LESS
    } else {
        let lp = left.point0_;
        let verdict = if right.spec_is_vertical() {
            rat_lt(
                point_arc_n(lp, k),
                point_arc_m(lp, k),
                right.point0_.x - k.x,
                2,
            )
        } else {
            pt_seg_dist_lt(
                point_arc_n(lp, k),
                point_arc_m(lp, k),
                seg_cross(right, k),
                seg_b(right),
                seg_l(right),
            )
        };
        reverse != verdict
    }
}

/// Exact comparison of two segment-arc offsets. Vertical arcs compare as
/// rationals; a vertical against a sloped arc leaves one square root, two
/// sloped arcs leave two.
pub open spec fn seg_seg_dist_lt(s1: SiteEvent, s2: SiteEvent, k: Point) -> bool {
    if s1.spec_is_vertical() && s2.spec_is_vertical() {
        s1.point0_.x < s2.point0_.x
    } else if s1.spec_is_vertical() {
        sign_root1(
            s1.point0_.x - k.x,
            seg_l(s2),
            2 * seg_cross(s2, k) - (s1.point0_.x - k.x) * seg_b(s2),
        ) < 0
    } else if s2.spec_is_vertical() {
        sign_root1(
            s2.point0_.x - k.x,
            seg_l(s1),
            2 * seg_cross(s1, k) - (s2.point0_.x - k.x) * seg_b(s1),
        ) > 0
    } else {
        sign_root2(
            seg_cross(s2, k),
            seg_l(s1),
            seg_cross(s1, k),
            seg_l(s2),
            seg_cross(s1, k) * seg_b(s2) - seg_cross(s2, k) * seg_b(s1),
        ) > 0
    }
}

/// The segment-segment distance predicate. Two copies of one input segment
/// (a split arc) fall back to the orientation of the query against the
/// segment; otherwise the two arc offsets are compared exactly.
pub open spec fn ss_less(left: SiteEvent, right: SiteEvent, k: Point) -> bool {
    if left.sorted_index_ == right.sorted_index_ {
        orientation(left.point0_, left.point1_, k) == Orientation::LEFT
    } else {
        seg_seg_dist_lt(left, right, k)
    }
}

/// The full distance predicate, dispatched on the site kinds.
pub open spec fn distance_less(left: SiteEvent, right: SiteEvent, k: Point) -> bool {
    if !left.is_segment_ {
        if !right.is_segment_ {
            pp_less(left, right, k)
        } else {
            ps_less(left, right, k, false)
        }
    } else if !right.is_segment_ {
        ps_less(right, left, k, true)
    } else {
        ss_less(left, right, k)
    }
}

/// Decides which arc a horizontal line through a new site strikes first.
pub struct DistancePredicate {}

impl DistancePredicate {
    /// Returns true if a horizontal line going through a new site intersects
    /// the right arc first, else false; false also when the line goes
    /// through the arcs' intersection point.
    pub fn distance_predicate(left_site: &SiteEvent, right_site: &SiteEvent, new_point: &Point)
        -> (r: bool)
        ensures
            r == distance_less(*left_site, *right_site, *new_point),
    {
        if !left_site.is_segment() {
            if !right_site.is_segment() {
                Self::pp(left_site, right_site, new_point)
            } else {
                Self::ps(left_site, right_site, new_point, false)
            }
        } else if !right_site.is_segment() {
            Self::ps(right_site, left_site, new_point, true)
        } else {
            Self::ss(left_site, right_site, new_point)
        }
    }

    /// Point-point distance predicate.
    pub fn pp(left_site: &SiteEvent, right_site: &SiteEvent, new_point: &Point) -> (r: bool)
        ensures
            r == pp_less(*left_site, *right_site, *new_point),
    {
        let lp: Point = left_site.point0_;
        let rp: Point = right_site.point0_;
        if lp.x > rp.x {
            if new_point.y <= lp.y {
                return false;
            }
        } else if lp.x < rp.x {
            if new_point.y >= rp.y {
                return true;
            }
        } else {
            return (lp.y as i64) + (rp.y as i64) < 2 * (new_point.y as i64);
        }
        let (n1, m1) = Self::point_arc(&lp, new_point);
        let (n2, m2) = Self::point_arc(&rp, new_point);
        Self::rat_lt_exec(n1, m1 as i128, n2, m2 as i128)
    }

    /// Point-segment distance predicate; `reverse_order` says the segment is
    /// the left site.
    pub fn ps(left_site: &SiteEvent, right_site: &SiteEvent, new_point: &Point,
        reverse_order: bool) -> (r: bool)
        ensures
            r == ps_less(*left_site, *right_site, *new_point, reverse_order),
    {
        let fast_res = Self::fast_ps(left_site, right_site, new_point, reverse_order);
        if fast_res != KPredicateResult::UNDEFINED {
            return fast_res == KPredicateResult::LESS;
        }
        let (n1, m1) = Self::point_arc(&left_site.point0_, new_point);
        let verdict: bool;
        if VoronoiPredicates::is_vertical_1(right_site) {
            let v: i64 = (right_site.point0_.x as i64) - (new_point.x as i64);
            verdict = Self::rat_lt_exec(n1, m1 as i128, v as i128, 2);
        } else {
            verdict = Self::pt_seg_lt_exec(n1, m1, right_site, new_point);
        }
        reverse_order != verdict
    }

    /// Segment-segment distance predicate.
    pub fn ss(left_site: &SiteEvent, right_site: &SiteEvent, new_point: &Point) -> (r: bool)
        ensures
            r == ss_less(*left_site, *right_site, *new_point),
    {
        if left_site.sorted_index() == right_site.sorted_index() {
            return OrientationTest::eval_3(
                left_site.point0(),
                left_site.point1(),
                new_point,
            ) == Orientation::LEFT;
        }
        let v1 = VoronoiPredicates::is_vertical_1(left_site);
        let v2 = VoronoiPredicates::is_vertical_1(right_site);
        if v1 && v2 {
            left_site.point0_.x < right_site.point0_.x
        } else if v1 {
            let s = Self::vert_vs_seg(left_site.point0_.x, right_site, new_point);
            s < 0
        } else if v2 {
            let s = Self::vert_vs_seg(right_site.point0_.x, left_site, new_point);
            s > 0
        } else {
            let cross1 = Self::seg_cross_exec(left_site, new_point);
            let cross2 = Self::seg_cross_exec(right_site, new_point);
            let l1 = Self::seg_l_exec(left_site);
            let l2 = Self::seg_l_exec(right_site);
            let b1: i64 = (left_site.point1_.y as i64) - (left_site.point0_.y as i64);
            let b2: i64 = (right_site.point1_.y as i64) - (right_site.point0_.y as i64);
            proof {
                lemma_mul_bound(cross1 as int, b2 as int, 0x8_0000_0000_0000_0000, 0x1_0000_0000);
                lemma_mul_bound(cross2 as int, b1 as int, 0x8_0000_0000_0000_0000, 0x1_0000_0000);
            }
            let d: i128 = cross1 * (b2 as i128) - cross2 * (b1 as i128);
            let s = eval_sign_root2(cross2, l1, cross1, l2, d);
            s > 0
        }
    }

    /// The fast, epsilon-free part of the point-segment predicate.
    pub fn fast_ps(left_site: &SiteEvent, right_site: &SiteEvent, new_point: &Point,
        reverse_order: bool) -> (r: KPredicateResult)
        ensures
            r == fast_ps_spec(*left_site, *right_site, *new_point, reverse_order),
    {
        let site_point: Point = left_site.point0_;
        let segment_start: Point = right_site.point0_;
        let segment_end: Point = right_site.point1_;
        let eval = OrientationTest::eval_3(&segment_start, &segment_end, new_point);
        if eval != Orientation::RIGHT {
            return if !right_site.is_inverse() {
                KPredicateResult::LESS
            } else {
                KPredicateResult::MORE
            };
        }
        if VoronoiPredicates::is_vertical_1(right_site) {
            if new_point.y < site_point.y && !reverse_order {
                return KPredicateResult::MORE;
            } else if new_point.y > site_point.y && reverse_order {
                return KPredicateResult::LESS;
            }
            return KPredicateResult::UNDEFINED;
        }
        let orientation = OrientationTest::eval_4(
            (segment_end.x as i64) - (segment_start.x as i64),
            (segment_end.y as i64) - (segment_start.y as i64),
            (new_point.x as i64) - (site_point.x as i64),
            (new_point.y as i64) - (site_point.y as i64),
        );
        if orientation == Orientation::LEFT {
            if !right_site.is_inverse() {
                return if reverse_order {
                    KPredicateResult::LESS
                } else {
                    KPredicateResult::UNDEFINED
                };
            }
            return if reverse_order {
                KPredicateResult::UNDEFINED
            } else {
                KPredicateResult::MORE
            };
        }
        KPredicateResult::UNDEFINED
    }

    /// Numerator and denominator of a point-arc offset.
    fn point_arc(p: &Point, k: &Point) -> (r: (i128, i64))
        ensures
            r.0 == point_arc_n(*p, *k),
            r.1 == point_arc_m(*p, *k),
            0 <= r.0 <= 0x4_0000_0000_0000_0000,
            -0x2_0000_0000 <= r.1 <= 0x2_0000_0000,
    {
        let dx: i64 = (p.x as i64) - (k.x as i64);
        let dy: i64 = (p.y as i64) - (k.y as i64);
        proof {
            lemma_mul_bound(dx as int, dx as int, 0x1_0000_0000, 0x1_0000_0000);
            lemma_mul_bound(dy as int, dy as int, 0x1_0000_0000, 0x1_0000_0000);
            assert(dx as int * dx as int >= 0) by (nonlinear_arith);
            assert(dy as int * dy as int >= 0) by (nonlinear_arith);
        }
        let n: i128 = (dx as i128) * (dx as i128) + (dy as i128) * (dy as i128);
        (n, 2 * dx)
    }

    /// The squared length of a segment site.
    fn seg_l_exec(s: &SiteEvent) -> (r: i128)
        ensures
            r == seg_l(*s),
            0 <= r <= 0x4_0000_0000_0000_0000,
    {
        let a: i64 = (s.point1_.x as i64) - (s.point0_.x as i64);
        let b: i64 = (s.point1_.y as i64) - (s.point0_.y as i64);
        proof {
            lemma_mul_bound(a as int, a as int, 0x1_0000_0000, 0x1_0000_0000);
            lemma_mul_bound(b as int, b as int, 0x1_0000_0000, 0x1_0000_0000);
            assert(a as int * a as int >= 0) by (nonlinear_arith);
            assert(b as int * b as int >= 0) by (nonlinear_arith);
        }
        (a as i128) * (a as i128) + (b as i128) * (b as i128)
    }

    /// The cross product of a segment vector with a query point offset.
    fn seg_cross_exec(s: &SiteEvent, k: &Point) -> (r: i128)
        ensures
            r == seg_cross(*s, *k),
            -0x8_0000_0000_0000_0000 <= r <= 0x8_0000_0000_0000_0000,
    {
        let a: i64 = (s.point1_.x as i64) - (s.point0_.x as i64);
        let b: i64 = (s.point1_.y as i64) - (s.point0_.y as i64);
        let ox: i64 = (k.x as i64) - (s.point0_.x as i64);
        let oy: i64 = (k.y as i64) - (s.point0_.y as i64);
        let r = robust_cross_product(a, b, ox, oy);
        proof {
            lemma_mul_bound(a as int, oy as int, 0x1_0000_0000, 0x1_0000_0000);
            lemma_mul_bound(b as int, ox as int, 0x1_0000_0000, 0x1_0000_0000);
        }
        r
    }

    /// Compare a point arc n1/m1 with a sloped segment arc of `s`.
    fn pt_seg_lt_exec(n1: i128, m1: i64, s: &SiteEvent, k: &Point) -> (r: bool)
        requires
            0 <= n1 <= 0x4_0000_0000_0000_0000,
            -0x2_0000_0000 <= m1 <= 0x2_0000_0000,
        ensures
            r == pt_seg_dist_lt(n1 as int, m1 as int, seg_cross(*s, *k), seg_b(*s), seg_l(*s)),
    {
        let cross = Self::seg_cross_exec(s, k);
        let l = Self::seg_l_exec(s);
        let b: i64 = (s.point1_.y as i64) - (s.point0_.y as i64);
        if m1 == 0 {
            return false;
        }
        proof {
            lemma_mul_bound(cross as int, m1 as int, 0x8_0000_0000_0000_0000, 0x2_0000_0000);
            lemma_mul_bound(n1 as int, b as int, 0x4_0000_0000_0000_0000, 0x1_0000_0000);
        }
        let a_term: i128 = cross * (m1 as i128) - n1 * (b as i128);
        let s_sign = eval_sign_root1(n1, l, a_term);
        if m1 > 0 {
            s_sign < 0
        } else {
            s_sign > 0
        }
    }

    /// Compare a vertical arc at x = sx against a sloped segment arc of `s`;
    /// returns the sign of (vertical offset) - (segment offset) through the
    /// one-root reduction.
    fn vert_vs_seg(sx: i32, s: &SiteEvent, k: &Point) -> (r: i8)
        requires
            !s.spec_is_vertical(),
        ensures
            r as int == sign_root1(
                sx - k.x,
                seg_l(*s),
                2 * seg_cross(*s, *k) - (sx - k.x) * seg_b(*s),
            ),
    {
        let cross = Self::seg_cross_exec(s, k);
        let l = Self::seg_l_exec(s);
        let b: i64 = (s.point1_.y as i64) - (s.point0_.y as i64);
        let v: i64 = (sx as i64) - (k.x as i64);
        proof {
            lemma_mul_bound(v as int, b as int, 0x1_0000_0000, 0x1_0000_0000);
        }
        let a_term: i128 = 2 * cross - (v as i128) * (b as i128);
        eval_sign_root1(v as i128, l, a_term)
    }

    /// Exact rational comparison with bounded operands.
    fn rat_lt_exec(n1: i128, m1: i128, n2: i128, m2: i128) -> (r: bool)
        requires
            -0x8_0000_0000_0000_0000 <= n1 <= 0x8_0000_0000_0000_0000,
            -0x8_0000_0000_0000_0000 <= n2 <= 0x8_0000_0000_0000_0000,
            -0x2_0000_0000 <= m1 <= 0x2_0000_0000,
            -0x2_0000_0000 <= m2 <= 0x2_0000_0000,
        ensures
            r == rat_lt(n1 as int, m1 as int, n2 as int, m2 as int),
    {
        if (n1 == 0 && m1 == 0) || (n2 == 0 && m2 == 0) {
            false
        } else if m1 == 0 {
            n1 < 0 && !(m2 == 0 && n2 < 0)
        } else if m2 == 0 {
            n2 > 0
        } else {
            proof {
                lemma_mul_bound(n1 as int, m2 as int, 0x8_0000_0000_0000_0000, 0x2_0000_0000);
                lemma_mul_bound(n2 as int, m1 as int, 0x8_0000_0000_0000_0000, 0x2_0000_0000);
                assert((m1 as int * m2 as int > 0) <==> ((m1 > 0) == (m2 > 0)))
                    by (nonlinear_arith)
                    requires
                        m1 != 0,
                        m2 != 0,
                ;
            }
            if (m1 > 0) == (m2 > 0) {
                n1 * m2 < n2 * m1
            } else {
                n1 * m2 > n2 * m1
            }
        }
    }
}

} // verus!
