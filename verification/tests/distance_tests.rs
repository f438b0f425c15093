use voronoi_core::{
    BeachLineNodeKey, DistancePredicate, KPredicateResult, NodeComparisonPredicate, Point,
    SiteEvent,
};

fn pt(x: i32, y: i32) -> Point {
    Point::new(x, y)
}

fn point_site(x: i32, y: i32, sorted: usize) -> SiteEvent {
    let mut s = SiteEvent::new_point(pt(x, y), sorted);
    s.set_sorted_index(sorted);
    s
}

fn seg_site(x0: i32, y0: i32, x1: i32, y1: i32, sorted: usize) -> SiteEvent {
    let mut s = SiteEvent::new_3(pt(x0, y0), pt(x1, y1), sorted);
    s.set_sorted_index(sorted);
    s
}

#[test]
fn pp_shortcuts() {
    let l = point_site(2, 0, 0);
    let r = point_site(0, 0, 1);
    // Left focus to the right of the right focus, query at or below it.
    assert!(!DistancePredicate::pp(&l, &r, &pt(3, -5)));
    assert!(!DistancePredicate::pp(&l, &r, &pt(3, 0)));
    // Swapped roles, query above the right focus.
    assert!(DistancePredicate::pp(&r, &l, &pt(3, 5)));
}

#[test]
fn pp_equal_x_midpoint() {
    let l = point_site(1, 0, 0);
    let r = point_site(1, 4, 1);
    assert!(DistancePredicate::pp(&l, &r, &pt(5, 3)));
    assert!(!DistancePredicate::pp(&l, &r, &pt(5, 1)));
    assert!(!DistancePredicate::pp(&l, &r, &pt(5, 2)));
}

#[test]
fn pp_exact_fallback() {
    // Arc offsets -13 for the left focus, -34/6 for the right one.
    let l = point_site(2, 0, 0);
    let r = point_site(0, 0, 1);
    assert!(DistancePredicate::pp(&l, &r, &pt(3, 5)));
}

#[test]
fn ps_sloped_exact() {
    // Horizontal segment above the focus; the fast path is undecided and
    // the exact one-root comparison answers.
    let p = point_site(0, 0, 0);
    let s = seg_site(-2, 3, 4, 3, 1);
    // Point arc at -5/4, segment arc at -2.
    assert!(!DistancePredicate::ps(&p, &s, &pt(2, 1), false));
    // Point arc at -2, segment arc at -1.
    assert!(DistancePredicate::ps(&p, &s, &pt(2, 2), false));
}

#[test]
fn ps_vertical_exact() {
    // Vertical segment right of the focus: the segment arc is a line at
    // half the x distance.
    let p = point_site(1, 1, 0);
    let s = seg_site(2, -3, 2, 5, 1);
    // Point arc at -5/4, segment arc at -1/2.
    assert!(DistancePredicate::ps(&p, &s, &pt(3, 2), false));
}

#[test]
fn ps_fast_path_decides() {
    // Query on the left side of the segment: decided without arithmetic.
    let p = point_site(0, 0, 0);
    let s = seg_site(-2, 3, 4, 3, 1);
    assert_eq!(
        DistancePredicate::fast_ps(&p, &s, &pt(0, 4), false),
        KPredicateResult::LESS
    );
    assert!(DistancePredicate::ps(&p, &s, &pt(0, 4), false));
    let mut si = seg_site(-2, 3, 4, 3, 1);
    let _ = si.inverse();
    assert_eq!(
        DistancePredicate::fast_ps(&p, &si, &pt(0, 2), false),
        KPredicateResult::MORE
    );
    assert!(!DistancePredicate::ps(&p, &si, &pt(0, 2), false));
}

#[test]
fn ss_split_arc_orientation() {
    // Both arcs of one split segment: orientation of the query decides.
    let s_a = seg_site(0, 0, 4, 1, 7);
    let s_b = seg_site(0, 0, 4, 1, 7);
    assert!(DistancePredicate::ss(&s_a, &s_b, &pt(2, 5)));
    assert!(!DistancePredicate::ss(&s_a, &s_b, &pt(2, -5)));
}

#[test]
fn ss_two_verticals() {
    let s1 = seg_site(0, -1, 0, 1, 0);
    let s2 = seg_site(1, -1, 1, 1, 1);
    assert!(DistancePredicate::ss(&s1, &s2, &pt(3, 0)));
    assert!(!DistancePredicate::ss(&s2, &s1, &pt(3, 0)));
}

#[test]
fn ss_vertical_vs_sloped() {
    // Vertical arc at -1 against a sloped arc at -3/4.
    let v = seg_site(0, -1, 0, 1, 0);
    let s = seg_site(0, 0, 4, 3, 1);
    assert!(DistancePredicate::ss(&v, &s, &pt(2, 0)));
    assert!(!DistancePredicate::ss(&s, &v, &pt(2, 0)));
}

#[test]
fn ss_two_sloped_exact() {
    // Horizontal arc at offset 1 against a sloped arc at 7/9: the decision
    // needs the full two-root comparison, through both squarings.
    let s1 = seg_site(0, 0, 5, 0, 0);
    let s2 = seg_site(3, 0, 6, 4, 1);
    assert!(!DistancePredicate::ss(&s1, &s2, &pt(2, 1)));
    assert!(DistancePredicate::ss(&s2, &s1, &pt(2, 1)));
}

#[test]
fn ss_congruent_sloped() {
    let s1 = seg_site(0, 0, 3, 4, 0);
    let s2 = seg_site(6, 0, 9, 4, 1);
    // Arc offsets -25/9 and -1/9.
    assert!(DistancePredicate::ss(&s1, &s2, &pt(7, 1)));
    assert!(!DistancePredicate::ss(&s2, &s1, &pt(7, 1)));
}

#[test]
fn distance_predicate_dispatch() {
    let p1 = point_site(2, 0, 0);
    let p2 = point_site(0, 0, 1);
    let s = seg_site(-2, 3, 4, 3, 2);
    assert!(DistancePredicate::distance_predicate(&p1, &p2, &pt(3, 5)));
    assert!(!DistancePredicate::distance_predicate(&p1, &s, &pt(2, 1)));
    // Segment on the left hands the point the reversed role.
    assert!(DistancePredicate::distance_predicate(&s, &p1, &pt(2, 1)));
}

#[test]
fn node_order_tie_breaks() {
    let a = point_site(1, 1, 0);
    let b = point_site(1, 1, 1);
    let n1 = BeachLineNodeKey::new_2(a, b);
    let n2 = BeachLineNodeKey::new_2(b, a);
    assert!(NodeComparisonPredicate::node_comparison_predicate(&n1, &n2));
    assert!(!NodeComparisonPredicate::node_comparison_predicate(&n2, &n1));
}

#[test]
fn node_order_routes_distance() {
    let a = point_site(0, 0, 0);
    let b = point_site(4, 0, 1);
    let c = point_site(2, 3, 2);
    let n1 = BeachLineNodeKey::new_2(a, b);
    let n2 = BeachLineNodeKey::new_2(b, c);
    assert!(NodeComparisonPredicate::node_comparison_predicate(&n1, &n2));
}

#[test]
fn node_comparison_helpers() {
    let a = point_site(0, 0, 0);
    let b = point_site(4, 0, 1);
    let n = BeachLineNodeKey::new_2(a, b);
    assert_eq!(NodeComparisonPredicate::get_comparison_site(&n).sorted_index(), 1);
    let mut s = seg_site(1, 2, 3, 7, 2);
    let _ = s.inverse();
    assert_eq!(*NodeComparisonPredicate::get_comparison_point(&s), pt(1, 2));
    let y = NodeComparisonPredicate::get_comparison_y(&n, true);
    assert_eq!(y, (0, -1));
}
