//! Exact cross products and the three-point orientation test.

use vstd::prelude::*;
use crate::point::Point;

verus! {

/// The 2x2 determinant a1 * b2 - b1 * a2.
pub open spec fn cross_spec(a1: int, b1: int, a2: int, b2: int) -> int {
    a1 * b2 - b1 * a2
}

/// The orientation determinant of the ordered point triple (p, q, r):
/// (qx - px)(ry - qy) - (qy - py)(rx - qx).
pub open spec fn cross_pts(p: Point, q: Point, r: Point) -> int {
    cross_spec(q.x - p.x, q.y - p.y, r.x - q.x, r.y - q.y)
}

/// Orientation of a point triple, by the sign of a determinant.
#[derive(Clone, Copy, PartialEq, Eq, Structural, Debug)]
pub enum Orientation {
    RIGHT,
    COLLINEAR,
    LEFT,
}

/// Orientation read off the sign of a determinant value.
pub open spec fn orient_of(value: int) -> Orientation {
    if value == 0 {
        Orientation::COLLINEAR
    } else if value < 0 {
        Orientation::RIGHT
    } else {
        Orientation::LEFT
    }
}

/// Orientation of the ordered triple (p, q, r).
pub open spec fn orientation(p: Point, q: Point, r: Point) -> Orientation {
    orient_of(cross_pts(p, q, r))
}

/// |x * y| <= bx * by when |x| <= bx and |y| <= by.
pub proof fn lemma_mul_bound(x: int, y: int, bx: int, by: int)
    by (nonlinear_arith)
    requires
        -bx <= x <= bx,
        -by <= y <= by,
        0 <= bx,
        0 <= by,
    ensures
        -(bx * by) <= x * y <= bx * by,
{
}

/// Exact cross product a1 * b2 - b1 * a2 of values that fit in 33 bits,
/// evaluated without overflow in a 128-bit integer.
pub fn robust_cross_product(a1: i64, b1: i64, a2: i64, b2: i64) -> (r: i128)
    requires
        -0x2_0000_0000 <= a1 <= 0x2_0000_0000,
        -0x2_0000_0000 <= b1 <= 0x2_0000_0000,
        -0x2_0000_0000 <= a2 <= 0x2_0000_0000,
        -0x2_0000_0000 <= b2 <= 0x2_0000_0000,
    ensures
        r == cross_spec(a1 as int, b1 as int, a2 as int, b2 as int),
{
    proof {
        lemma_mul_bound(a1 as int, b2 as int, 0x2_0000_0000, 0x2_0000_0000);
        lemma_mul_bound(b1 as int, a2 as int, 0x2_0000_0000, 0x2_0000_0000);
    }
    (a1 as i128) * (b2 as i128) - (b1 as i128) * (a2 as i128)
}

/// The orientation test of the predicate family.
pub struct OrientationTest {}

impl OrientationTest {
    /// Orientation from the sign of an exactly computed determinant.
    pub fn eval_i(value: i128) -> (r: Orientation)
        ensures
            r == orient_of(value as int),
    {
        if value == 0 {
            Orientation::COLLINEAR
        } else if value < 0 {
            Orientation::RIGHT
        } else {
            Orientation::LEFT
        }
    }

    /// Orientation of the ordered triple (point1, point2, point3).
    pub fn eval_3(point1: &Point, point2: &Point, point3: &Point) -> (r: Orientation)
        ensures
            r == orientation(*point1, *point2, *point3),
    {
        let dx1: i64 = (point1.x as i64) - (point2.x as i64);
        let dx2: i64 = (point2.x as i64) - (point3.x as i64);
        let dy1: i64 = (point1.y as i64) - (point2.y as i64);
        let dy2: i64 = (point2.y as i64) - (point3.y as i64);
        let cp: i128 = robust_cross_product(dx1, dy1, dx2, dy2);
        proof {
            assert(cross_spec(dx1 as int, dy1 as int, dx2 as int, dy2 as int)
                == cross_pts(*point1, *point2, *point3)) by (nonlinear_arith)
                requires
                    dx1 == point1.x - point2.x,
                    dx2 == point2.x - point3.x,
                    dy1 == point1.y - point2.y,
                    dy2 == point2.y - point3.y;
        }
        Self::eval_i(cp)
    }

    /// Orientation from the exact determinant of two difference vectors.
    pub fn eval_4(dif_x1: i64, dif_y1: i64, dif_x2: i64, dif_y2: i64) -> (r: Orientation)
        requires
            -0x2_0000_0000 <= dif_x1 <= 0x2_0000_0000,
            -0x2_0000_0000 <= dif_y1 <= 0x2_0000_0000,
            -0x2_0000_0000 <= dif_x2 <= 0x2_0000_0000,
            -0x2_0000_0000 <= dif_y2 <= 0x2_0000_0000,
        ensures
            r == orient_of(cross_spec(dif_x1 as int, dif_y1 as int, dif_x2 as int, dif_y2 as int)),
    {
        Self::eval_i(robust_cross_product(dif_x1, dif_y1, dif_x2, dif_y2))
    }
}

/// The orientation of a triple is invariant under cyclic rotation:
/// Orientation(p, q, r), Orientation(q, r, p) and Orientation(r, p, q) agree,
/// so the three are either all the same non-zero turn or all collinear.
pub proof fn lemma_orientation_cyclic(p: Point, q: Point, r: Point)
    ensures
        orientation(p, q, r) == orientation(q, r, p),
        orientation(q, r, p) == orientation(r, p, q),
{
    assert(cross_pts(p, q, r) == cross_pts(q, r, p)) by (nonlinear_arith);
    assert(cross_pts(q, r, p) == cross_pts(r, p, q)) by (nonlinear_arith);
}

/// Reversing a triple flips its orientation's sign.
pub proof fn lemma_orientation_reversal(p: Point, q: Point, r: Point)
    ensures
        cross_pts(r, q, p) == -cross_pts(p, q, r),
{
    assert(cross_pts(r, q, p) == -cross_pts(p, q, r)) by (nonlinear_arith);
}

} // verus!
