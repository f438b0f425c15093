use voronoi_core::{
    EventComparisonPredicate, Orientation, OrientationTest, Point, PointComparisonPredicate,
    SiteEvent, VoronoiPredicates,
};

fn pt(x: i32, y: i32) -> Point {
    Point::new(x, y)
}

#[test]
fn point_order_basic() {
    assert!(PointComparisonPredicate::point_comparison_predicate(&pt(0, 5), &pt(1, 0)));
    assert!(PointComparisonPredicate::point_comparison_predicate(&pt(1, 2), &pt(1, 3)));
    assert!(!PointComparisonPredicate::point_comparison_predicate(&pt(1, 3), &pt(1, 3)));
    assert!(!PointComparisonPredicate::point_comparison_predicate(&pt(2, 0), &pt(1, 9)));
}

#[test]
fn orientation_basic() {
    assert_eq!(
        OrientationTest::eval_3(&pt(1, 0), &pt(0, 0), &pt(0, 1)),
        Orientation::RIGHT
    );
    assert_eq!(
        OrientationTest::eval_3(&pt(0, 1), &pt(0, 0), &pt(1, 0)),
        Orientation::LEFT
    );
    assert_eq!(
        OrientationTest::eval_3(&pt(0, 0), &pt(1, 1), &pt(2, 2)),
        Orientation::COLLINEAR
    );
    assert_eq!(
        VoronoiPredicates::robust_cross_product(1, 0, 0, 1),
        1i128
    );
    assert_eq!(
        VoronoiPredicates::robust_cross_product_2i(3, 5, 2, 4),
        3 * 4 - 5 * 2
    );
}

#[test]
fn orientation_cyclic_consistency() {
    // The orientation of a triple is the same for each cyclic rotation and
    // flips when the triple is reversed.
    let p = pt(0, 0);
    let q = pt(4, 1);
    let r = pt(2, 5);
    let o1 = OrientationTest::eval_3(&p, &q, &r);
    let o2 = OrientationTest::eval_3(&q, &r, &p);
    let o3 = OrientationTest::eval_3(&r, &p, &q);
    assert_eq!(o1, o2);
    assert_eq!(o2, o3);
    assert_eq!(o1, Orientation::LEFT);
    assert_eq!(OrientationTest::eval_3(&r, &q, &p), Orientation::RIGHT);

    let a = pt(0, 0);
    let b = pt(1, 1);
    let c = pt(2, 2);
    assert_eq!(OrientationTest::eval_3(&a, &b, &c), Orientation::COLLINEAR);
    assert_eq!(OrientationTest::eval_3(&b, &c, &a), Orientation::COLLINEAR);
    assert_eq!(OrientationTest::eval_3(&c, &a, &b), Orientation::COLLINEAR);
}

#[test]
fn event_order_points_and_verticals() {
    let bii = EventComparisonPredicate::event_comparison_predicate_bii;
    let p1 = SiteEvent::new_point(pt(0, 5), 0);
    let p2 = SiteEvent::new_point(pt(1, 0), 1);
    assert!(bii(&p1, &p2));
    assert!(!bii(&p2, &p1));

    let p3 = SiteEvent::new_point(pt(1, 2), 2);
    assert!(bii(&p3, &p2) == false);
    assert!(bii(&p2, &p3));

    // A point ties into a vertical segment starting at or above it.
    let p4 = SiteEvent::new_point(pt(2, 5), 3);
    let v = SiteEvent::new_3(pt(2, 5), pt(2, 9), 4);
    assert!(bii(&p4, &v));
    assert!(!bii(&v, &p4));

    // A point beats a non-vertical segment at the same x.
    let s = SiteEvent::new_3(pt(2, 5), pt(7, 6), 5);
    assert!(bii(&p4, &s));
    assert!(!bii(&s, &p4));

    // Vertical before non-vertical at the same x.
    assert!(bii(&v, &s));
    assert!(!bii(&s, &v));
}

#[test]
fn event_order_segment_angles() {
    let bii = EventComparisonPredicate::event_comparison_predicate_bii;
    // Two sloped segments sharing their start: the steeper one first.
    let s1 = SiteEvent::new_3(pt(0, 0), pt(2, 5), 0);
    let s2 = SiteEvent::new_3(pt(0, 0), pt(3, 1), 1);
    assert!(bii(&s1, &s2));
    assert!(!bii(&s2, &s1));

    let ord = EventComparisonPredicate::event_comparison_predicate_ii(&s1, &s2);
    assert_eq!(ord, std::cmp::Ordering::Less);
    let ord2 = EventComparisonPredicate::event_comparison_predicate_ii(&s2, &s1);
    assert_eq!(ord2, std::cmp::Ordering::Greater);
}

#[test]
fn event_order_box_with_diagonal() {
    // The five-segment driver input: a box plus a diagonal, normalized so
    // every segment's first point precedes its second.
    let bii = EventComparisonPredicate::event_comparison_predicate_bii;
    let s1 = SiteEvent::new_3(pt(200, 200), pt(200, 400), 0);
    let s2 = SiteEvent::new_3(pt(200, 400), pt(400, 400), 1);
    let s3 = SiteEvent::new_3(pt(400, 200), pt(400, 400), 2);
    let s4 = SiteEvent::new_3(pt(200, 200), pt(400, 200), 3);
    let s5 = SiteEvent::new_3(pt(367, 107), pt(529, 242), 4);

    // Expected order: s1 (vertical at 200), s4 (y 200), s2 (y 400), s5
    // (x 367), s3 (x 400).
    assert!(bii(&s1, &s4));
    assert!(bii(&s4, &s2));
    assert!(bii(&s2, &s5));
    assert!(bii(&s5, &s3));
    assert!(!bii(&s4, &s1));
    assert!(!bii(&s2, &s4));
    assert!(!bii(&s5, &s2));
    assert!(!bii(&s3, &s5));
}

#[test]
fn is_vertical() {
    let v = SiteEvent::new_3(pt(2, 5), pt(2, 9), 0);
    let s = SiteEvent::new_3(pt(2, 5), pt(7, 6), 1);
    assert!(VoronoiPredicates::is_vertical_1(&v));
    assert!(!VoronoiPredicates::is_vertical_1(&s));
    assert!(VoronoiPredicates::is_vertical_2(&pt(1, 0), &pt(1, 9)));
    assert_eq!(VoronoiPredicates::ulps(), 128);
}
