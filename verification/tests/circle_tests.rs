use voronoi_core::{
    CircleCase, CircleExistencePredicate, CircleFormationFunctor, ExactCircleFormationFunctor,
    Point, SiteEvent,
};

fn pt(x: i32, y: i32) -> Point {
    Point::new(x, y)
}

fn point_site(x: i32, y: i32, sorted: usize) -> SiteEvent {
    let mut s = SiteEvent::new_point(pt(x, y), sorted);
    s.set_sorted_index(sorted);
    s
}

fn seg_site(x0: i32, y0: i32, x1: i32, y1: i32, sorted: usize) -> SiteEvent {
    let mut s = SiteEvent::new_3(pt(x0, y0), pt(x1, y1), sorted);
    s.set_sorted_index(sorted);
    s
}

#[test]
fn ppp_existence() {
    let a = point_site(1, 0, 0);
    let b = point_site(0, 0, 1);
    let c = point_site(0, 1, 2);
    assert!(CircleExistencePredicate::ppp(&a, &b, &c));
    // Reversed winding: no circle.
    assert!(!CircleExistencePredicate::ppp(&c, &b, &a));
    // Collinear: no circle.
    let d = point_site(2, 2, 3);
    let e = point_site(3, 3, 4);
    let f = point_site(4, 4, 5);
    assert!(!CircleExistencePredicate::ppp(&d, &e, &f));
}

#[test]
fn pps_existence_spanning_segment() {
    // A segment spanning exactly the two points admits no circle.
    let a = point_site(0, 0, 0);
    let b = point_site(4, 4, 1);
    let s = seg_site(0, 0, 4, 4, 2);
    assert!(!CircleExistencePredicate::pps(&a, &b, &s, 2));
    let s2 = seg_site(1, 0, 5, 4, 3);
    assert!(CircleExistencePredicate::pps(&a, &b, &s2, 2));
}

#[test]
fn pps_existence_orientation() {
    let a = point_site(0, 0, 0);
    let b = point_site(2, 0, 1);
    let below = seg_site(1, -5, 3, -9, 2);
    let above = seg_site(1, 5, 3, 9, 3);
    assert!(CircleExistencePredicate::pps(&a, &b, &below, 3));
    assert!(!CircleExistencePredicate::pps(&a, &b, &above, 3));
}

#[test]
fn pss_existence() {
    let p = point_site(2, 3, 1);
    let s1 = seg_site(0, 0, 4, 1, 0);
    let s2 = seg_site(1, -2, 5, -1, 2);
    // Two arcs of one segment admit no circle.
    let s1_copy = seg_site(0, 0, 4, 1, 0);
    assert!(!CircleExistencePredicate::pss(&p, &s1, &s1_copy, 1));
    // Middle point, co-inverse segments winding right.
    assert!(CircleExistencePredicate::pss(&p, &s1, &s2, 2));
    // A non-inverse second segment with an inverse third is rejected.
    let mut s2_inv = seg_site(1, -2, 5, -1, 2);
    let _ = s2_inv.inverse();
    assert!(!CircleExistencePredicate::pss(&p, &s1, &s2_inv, 2));
}

#[test]
fn sss_existence() {
    let s1 = seg_site(0, 0, 1, 2, 0);
    let s2 = seg_site(5, 0, 6, 2, 1);
    let s3 = seg_site(9, 0, 11, 1, 2);
    assert!(CircleExistencePredicate::sss(&s1, &s2, &s3));
    let s2_copy = seg_site(5, 0, 6, 2, 1);
    assert!(!CircleExistencePredicate::sss(&s1, &s2, &s2_copy));
    // The outer arcs of one segment around a different middle arc are just
    // as degenerate: all three indices must be pairwise distinct.
    let s1_copy = seg_site(0, 0, 1, 2, 0);
    assert!(!CircleExistencePredicate::sss(&s1, &s2, &s1_copy));
}

#[test]
fn pss_collinear_discriminant() {
    // Two parallel horizontal segments on y = 0 and y = 4. A point between
    // the two supporting lines admits a circle; a point beyond them does
    // not (negative discriminant); a point on a line is the tangent tie.
    let seg_lower = seg_site(0, 0, 2, 0, 0);
    let seg_upper = seg_site(5, 4, 7, 4, 1);
    let between = point_site(3, 2, 2);
    let beyond = point_site(3, 5, 3);
    let on_line = point_site(3, 0, 4);
    assert_eq!(
        ExactCircleFormationFunctor::pss_collinear_discriminant_sign(
            &between, &seg_lower, &seg_upper
        ),
        1
    );
    assert_eq!(
        ExactCircleFormationFunctor::pss_collinear_discriminant_sign(
            &beyond, &seg_lower, &seg_upper
        ),
        -1
    );
    assert_eq!(
        ExactCircleFormationFunctor::pss_collinear_discriminant_sign(
            &on_line, &seg_lower, &seg_upper
        ),
        0
    );
}

#[test]
fn formation_case_dispatch() {
    let p1 = point_site(1, 0, 0);
    let p2 = point_site(0, 0, 1);
    let p3 = point_site(0, 1, 2);
    assert_eq!(
        CircleFormationFunctor::circle_formation_case(&p1, &p2, &p3),
        Some(CircleCase::PPP)
    );
    assert_eq!(
        CircleFormationFunctor::circle_formation_case(&p3, &p2, &p1),
        None
    );

    let a = point_site(0, 0, 0);
    let b = point_site(2, 0, 1);
    let below = seg_site(1, -5, 3, -9, 2);
    assert_eq!(
        CircleFormationFunctor::circle_formation_case(&a, &b, &below),
        Some(CircleCase::PPS { segment_index: 3 })
    );
    let above = seg_site(1, 5, 3, 9, 2);
    assert_eq!(
        CircleFormationFunctor::circle_formation_case(&above, &b, &a),
        Some(CircleCase::PPS { segment_index: 1 })
    );

    let p = point_site(2, 3, 1);
    let s1 = seg_site(0, 0, 4, 1, 0);
    let s2 = seg_site(1, -2, 5, -1, 2);
    assert_eq!(
        CircleFormationFunctor::circle_formation_case(&p, &s1, &s2),
        Some(CircleCase::PSS { point_index: 1 })
    );
    assert_eq!(
        CircleFormationFunctor::circle_formation_case(&s1, &p, &s2),
        Some(CircleCase::PSS { point_index: 2 })
    );
    assert_eq!(
        CircleFormationFunctor::circle_formation_case(&s1, &s2, &p),
        Some(CircleCase::PSS { point_index: 3 })
    );

    let s3 = seg_site(9, 0, 11, 1, 3);
    assert_eq!(
        CircleFormationFunctor::circle_formation_case(&s1, &s2, &s3),
        Some(CircleCase::SSS)
    );
}

#[test]
fn exact_ppp_center_unit_square() {
    // Three corners of the unit square: the Voronoi vertex of the square's
    // point sites lies at (1/2, 1/2).
    let p1 = point_site(1, 0, 0);
    let p2 = point_site(0, 0, 1);
    let p3 = point_site(0, 1, 2);
    let (cxn, cyn, den) = ExactCircleFormationFunctor::ppp(&p1, &p2, &p3);
    assert_ne!(den, 0);
    assert_eq!(2 * cxn, den);
    assert_eq!(2 * cyn, den);
}

#[test]
fn exact_ppp_center_integer_radius() {
    // A circle with an integer squared radius is recovered exactly: the
    // circumcircle of (0,8), (6,0), (0,0) has center (3,4) and radius 5.
    let p1 = point_site(0, 8, 0);
    let p2 = point_site(6, 0, 1);
    let p3 = point_site(0, 0, 2);
    assert!(CircleExistencePredicate::ppp(&p1, &p2, &p3));
    let (cxn, cyn, den) = ExactCircleFormationFunctor::ppp(&p1, &p2, &p3);
    assert_ne!(den, 0);
    assert_eq!(cxn, 3 * den);
    assert_eq!(cyn, 4 * den);
    // The scaled squared distance to each site is r*r * den*den with r = 5.
    let sq = |px: i128, py: i128| -> i128 {
        (cxn - px * den) * (cxn - px * den) + (cyn - py * den) * (cyn - py * den)
    };
    assert_eq!(sq(0, 8), 25 * den * den);
    assert_eq!(sq(6, 0), 25 * den * den);
    assert_eq!(sq(0, 0), 25 * den * den);
}

#[test]
fn exact_sss_coefficients() {
    let s1 = seg_site(0, 0, 1, 2, 0);
    let s2 = seg_site(5, 0, 6, 2, 1);
    let s3 = seg_site(9, 0, 11, 1, 2);
    let co = ExactCircleFormationFunctor::sss_coefficients(&s1, &s2, &s3);
    assert_eq!((co.s1.a, co.s1.b, co.s1.c, co.s1.sq_len), (1, 2, 0, 5));
    assert_eq!((co.s2.a, co.s2.b, co.s2.c, co.s2.sq_len), (1, 2, 10, 5));
    assert_eq!((co.s3.a, co.s3.b, co.s3.c, co.s3.sq_len), (2, 1, 9, 5));
    assert_eq!((co.denom1, co.denom2, co.denom3), (-3, 3, 0));
    assert_eq!(co.cx1, 1 * 9 - 2 * 10);
    assert_eq!(co.cy1, 2 * 9 - 1 * 10);
}

#[test]
fn exact_ppp_equidistance() {
    // An asymmetric triple: the returned center is exactly equidistant
    // from all three defining points.
    let p1 = point_site(7, -2, 0);
    let p2 = point_site(1, 1, 1);
    let p3 = point_site(-3, 5, 2);
    let (cxn, cyn, den) = ExactCircleFormationFunctor::ppp(&p1, &p2, &p3);
    let sq = |px: i128, py: i128| -> i128 {
        (cxn - px * den) * (cxn - px * den) + (cyn - py * den) * (cyn - py * den)
    };
    assert_eq!(sq(7, -2), sq(1, 1));
    assert_eq!(sq(1, 1), sq(-3, 5));
}
