use voronoi_core::{
    DistancePredicate, EventComparisonPredicate, ExactCircleFormationFunctor, Point,
    PointComparisonPredicate, SiteEvent,
};

fn pt(x: i32, y: i32) -> Point {
    Point::new(x, y)
}

fn seg_site(x0: i32, y0: i32, x1: i32, y1: i32, sorted: usize) -> SiteEvent {
    let (a, b) = if PointComparisonPredicate::point_comparison_predicate(&pt(x0, y0), &pt(x1, y1))
    {
        (pt(x0, y0), pt(x1, y1))
    } else {
        (pt(x1, y1), pt(x0, y0))
    };
    let mut s = SiteEvent::new_3(a, b, sorted);
    s.set_sorted_index(sorted);
    s
}

#[test]
fn heptagon_event_order() {
    // A seven-segment convex polygon with coordinates up to 150k: sorting
    // by the event comparator yields a strict order.
    let vs: [(i32, i32); 7] = [
        (19546, 47259),
        (45936, 36666),
        (59968, 21417),
        (125257, 19781),
        (148480, 47150),
        (105345, 58720),
        (57522, 57522),
    ];
    let mut sites: Vec<SiteEvent> = Vec::new();
    for i in 0..7 {
        let (x0, y0) = vs[i];
        let (x1, y1) = vs[(i + 1) % 7];
        sites.push(seg_site(x0, y0, x1, y1, i));
    }
    sites.sort_by(|a, b| EventComparisonPredicate::event_comparison_predicate_ii(a, b));
    for w in sites.windows(2) {
        assert!(EventComparisonPredicate::event_comparison_predicate_bii(&w[0], &w[1]));
        assert!(!EventComparisonPredicate::event_comparison_predicate_bii(&w[1], &w[0]));
    }
    assert_eq!(sites[0].x0(), 19546);
}

#[test]
fn exact_ppp_center_large() {
    // Equidistance of the exact circumcenter holds at 150k scale.
    let p1 = SiteEvent::new_point(pt(19546, 47259), 0);
    let p2 = SiteEvent::new_point(pt(59968, 21417), 1);
    let p3 = SiteEvent::new_point(pt(148480, 47150), 2);
    let (cxn, cyn, den) = ExactCircleFormationFunctor::ppp(&p1, &p2, &p3);
    assert_ne!(den, 0);
    let sq = |px: i128, py: i128| -> i128 {
        (cxn - px * den) * (cxn - px * den) + (cyn - py * den) * (cyn - py * den)
    };
    assert_eq!(sq(19546, 47259), sq(59968, 21417));
    assert_eq!(sq(59968, 21417), sq(148480, 47150));
}

#[test]
fn ss_exact_large() {
    // Two long horizontal segments: the arc of the lower one is farther
    // right at a query between them, decided through the two-root path
    // whose squared magnitudes only fit in arbitrary precision.
    let s1 = seg_site(0, 0, 150000, 0, 0);
    let s2 = seg_site(0, 100000, 150000, 100000, 1);
    let k = pt(140000, 50000);
    assert!(!DistancePredicate::ss(&s1, &s2, &k));
    assert!(DistancePredicate::ss(&s2, &s1, &k));
}
