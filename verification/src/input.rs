//! Conversion of raw coordinate arrays into the library's input types.

use vstd::prelude::*;
use crate::point::Point;

verus! {

/// An input line segment between two points.
#[derive(Clone, Copy, PartialEq, Eq, Structural, Debug)]
pub struct Segment {
    pub p0: Point,
    pub p1: Point,
}

impl Segment {
    pub fn new(p0: Point, p1: Point) -> (r: Segment)
        ensures
            r.p0 == p0,
            r.p1 == p1,
    {
        Segment { p0, p1 }
    }
}

/// Each `[x, y]` pair becomes the point (x, y), in order.
pub fn to_points(points: &Vec<[i32; 2]>) -> (r: Vec<Point>)
    ensures
        r.len() == points.len(),
        forall|i: int|
            0 <= i < points.len() ==> r[i] == (Point { x: points[i][0], y: points[i][1] }),
{
    let mut rv: Vec<Point> = Vec::new();
    let mut idx: usize = 0;
    while idx < points.len()
        invariant
            idx <= points.len(),
            rv.len() == idx,
            forall|i: int|
                0 <= i < idx ==> rv[i] == (Point { x: points@[i][0], y: points@[i][1] }),
        decreases points.len() - idx,
    {
        let p = &points[idx];
        rv.push(Point { x: p[0], y: p[1] });
        idx += 1;
    }
    rv
}

/// Each `[x0, y0, x1, y1]` quadruple becomes the segment from (x0, y0) to
/// (x1, y1), in order.
pub fn to_segments(points: &Vec<[i32; 4]>) -> (r: Vec<Segment>)
    ensures
        r.len() == points.len(),
        forall|i: int|
            0 <= i < points.len() ==> r[i] == (Segment {
                p0: Point { x: points[i][0], y: points[i][1] },
                p1: Point { x: points[i][2], y: points[i][3] },
            }),
{
    let mut rv: Vec<Segment> = Vec::new();
    let mut idx: usize = 0;
    while idx < points.len()
        invariant
            idx <= points.len(),
            rv.len() == idx,
            forall|i: int|
                0 <= i < idx ==> rv[i] == (Segment {
                    p0: Point { x: points@[i][0], y: points@[i][1] },
                    p1: Point { x: points@[i][2], y: points@[i][3] },
                }),
        decreases points.len() - idx,
    {
        let p = &points[idx];
        rv.push(Segment { p0: Point { x: p[0], y: p[1] }, p1: Point { x: p[2], y: p[3] } });
        idx += 1;
    }
    rv
}

} // verus!
