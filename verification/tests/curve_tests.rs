use f5x2_curve::curve::{point_add, point_mul, Point};
use f5x2_curve::enumerate::{
    enumerate_curve_points, enumerate_field_elements, find_full_r_torsion_points, try_point_mul,
};
use f5x2_curve::field::F5x2;

fn fe(a: u8, b: u8) -> F5x2 {
    F5x2::new(a, b)
}

fn pt(xa: u8, xb: u8, ya: u8, yb: u8) -> Point {
    Point::new(Some(fe(xa, xb)), Some(fe(ya, yb)))
}

// The affine points of y^2 = x^3 + x + 1 over F(5^2), in scan order.
fn golden_points() -> Vec<Point> {
    vec![
        pt(0, 0, 1, 0),
        pt(0, 0, 4, 0),
        pt(1, 0, 0, 1),
        pt(1, 0, 0, 4),
        pt(1, 2, 1, 1),
        pt(1, 2, 4, 4),
        pt(1, 3, 1, 4),
        pt(1, 3, 4, 1),
        pt(2, 0, 1, 0),
        pt(2, 0, 4, 0),
        pt(2, 2, 0, 1),
        pt(2, 2, 0, 4),
        pt(2, 3, 0, 1),
        pt(2, 3, 0, 4),
        pt(3, 0, 1, 0),
        pt(3, 0, 4, 0),
        pt(3, 1, 1, 3),
        pt(3, 1, 4, 2),
        pt(3, 2, 2, 0),
        pt(3, 2, 3, 0),
        pt(3, 3, 2, 0),
        pt(3, 3, 3, 0),
        pt(3, 4, 1, 2),
        pt(3, 4, 4, 3),
        pt(4, 0, 2, 0),
        pt(4, 0, 3, 0),
    ]
}

#[test]
fn field_enumeration_covers_all_25_elements() {
    let elems = enumerate_field_elements();
    assert_eq!(elems.len(), 25);
    for (k, e) in elems.iter().enumerate() {
        assert_eq!(e.a, (k / 5) as u8);
        assert_eq!(e.b, (k % 5) as u8);
    }
}

#[test]
fn curve_point_enumeration_matches_golden_fixture() {
    let elems = enumerate_field_elements();
    let points = enumerate_curve_points(fe(1, 0), fe(1, 0), &elems);
    assert_eq!(points, golden_points());
}

#[test]
fn identity_is_neutral_on_every_curve_point() {
    let a = fe(1, 0);
    let inf = Point::at_infinity();
    for p in golden_points() {
        assert_eq!(point_add(p, inf, a), p);
        assert_eq!(point_add(inf, p, a), p);
    }
}

#[test]
fn mirror_point_is_the_group_inverse() {
    let a = fe(1, 0);
    let zero = fe(0, 0);
    for p in golden_points() {
        let y = p.y.unwrap();
        if y != zero {
            let neg = Point::new(p.x, Some(zero.sub(y)));
            assert!(point_add(p, neg, a).is_at_infinity());
        }
    }
}

#[test]
fn scalar_multiplication_by_zero_and_one() {
    let a = fe(1, 0);
    for p in golden_points() {
        assert!(point_mul(0, p, a).is_at_infinity());
        assert_eq!(point_mul(1, p, a), p);
    }
}

#[test]
fn three_torsion_of_the_reference_curve() {
    let elems = enumerate_field_elements();
    let a = fe(1, 0);
    let b = fe(1, 0);
    let torsion = find_full_r_torsion_points(3, a, b, &elems);

    let expected = vec![
        pt(1, 0, 0, 1),
        pt(1, 0, 0, 4),
        pt(1, 2, 1, 1),
        pt(1, 2, 4, 4),
        pt(1, 3, 1, 4),
        pt(1, 3, 4, 1),
        pt(2, 0, 1, 0),
        pt(2, 0, 4, 0),
        Point::at_infinity(),
    ];
    assert_eq!(torsion, expected);

    // the subgroup order divides the total number of curve points (26 + 1)
    let total = enumerate_curve_points(a, b, &elems).len() + 1;
    assert_eq!(total % torsion.len(), 0);
    // the point at infinity appears exactly once
    let infs = torsion.iter().filter(|p| p.is_at_infinity()).count();
    assert_eq!(infs, 1);
    // every returned point is r-torsion
    for p in &torsion {
        assert!(point_mul(3, *p, a).is_at_infinity());
    }
}

#[test]
fn try_point_mul_agrees_with_point_mul() {
    let a = fe(1, 0);
    for p in golden_points() {
        for n in 0..10u8 {
            let r = try_point_mul(n, p, a);
            assert!(r.is_some());
            assert_eq!(r.unwrap(), point_mul(n, p, a));
        }
    }
}

#[test]
fn try_point_mul_reports_doubling_a_two_torsion_point() {
    // On y^2 = x^3 + 4x (a = 4, b = 0) the point (0, 0) has order 2:
    // doubling it would divide by y = 0, which the original group law
    // treats as fatal.
    let a = fe(4, 0);
    let p = Point::new(Some(fe(0, 0)), Some(fe(0, 0)));
    assert!(try_point_mul(2, p, a).is_none());
    assert!(try_point_mul(1, p, a).is_none());
    assert!(try_point_mul(0, p, a).is_some());
}
