use f5x2_curve::curve::Point;
use f5x2_curve::field::F5x2;

#[test]
fn field_element_rendering() {
    assert_eq!(F5x2::new(0, 0).to_text(), "0");
    assert_eq!(F5x2::new(2, 0).to_text(), "2");
    assert_eq!(F5x2::new(0, 3).to_text(), "3t");
    assert_eq!(F5x2::new(1, 4).to_text(), "1 + 4t");
}

#[test]
fn point_rendering() {
    assert_eq!(Point::at_infinity().to_text(), "Point at infinity");
    let p = Point::new(Some(F5x2::new(1, 0)), Some(F5x2::new(0, 4)));
    assert_eq!(p.to_text(), "(1, 4t)");
    let q = Point::new(Some(F5x2::new(3, 2)), Some(F5x2::new(2, 0)));
    assert_eq!(q.to_text(), "(3 + 2t, 2)");
}
