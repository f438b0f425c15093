use voronoi_core::{BeachLineIndex, EndPointPair, Point, Segment, to_points, to_segments};

#[test]
fn to_points_basic() {
    let raw: Vec<[i32; 2]> = vec![[0, 0], [1, -2], [-3, 4]];
    let pts = to_points(&raw);
    assert_eq!(pts.len(), 3);
    assert_eq!(pts[0], Point::new(0, 0));
    assert_eq!(pts[1], Point::new(1, -2));
    assert_eq!(pts[2], Point::new(-3, 4));
}

#[test]
fn to_segments_basic() {
    let raw: Vec<[i32; 4]> = vec![
        [200, 200, 200, 400],
        [200, 400, 400, 400],
        [400, 400, 400, 200],
        [400, 200, 200, 200],
        [529, 242, 367, 107],
    ];
    let segs = to_segments(&raw);
    assert_eq!(segs.len(), 5);
    assert_eq!(
        segs[0],
        Segment::new(Point::new(200, 200), Point::new(200, 400))
    );
    assert_eq!(
        segs[4],
        Segment::new(Point::new(529, 242), Point::new(367, 107))
    );
}

#[test]
fn end_point_pair_order() {
    let a = EndPointPair::new_2(Point::new(1, 2), BeachLineIndex(0));
    let b = EndPointPair::new_2(Point::new(3, 4), BeachLineIndex(7));
    // The order is the reversed point order: the smaller point is Greater.
    assert_eq!(a.cmp(&b), std::cmp::Ordering::Greater);
    assert_eq!(b.cmp(&a), std::cmp::Ordering::Less);
    assert_eq!(a.partial_cmp(&b), Some(std::cmp::Ordering::Greater));

    let a2 = EndPointPair::new_2(Point::new(1, 2), BeachLineIndex(9));
    assert_eq!(a.cmp(&a2), std::cmp::Ordering::Equal);
    // Equality looks at the point alone, not the beach-line index.
    assert!(a == a2);
    assert!(a != b);
}
