use f5x2_curve::field::F5x2;

fn all_elements() -> Vec<F5x2> {
    let mut v = Vec::new();
    for a in 0..5 {
        for b in 0..5 {
            v.push(F5x2::new(a, b));
        }
    }
    v
}

#[test]
fn new_reduces_coefficients() {
    let e = F5x2::new(7, 13);
    assert_eq!(e.a, 2);
    assert_eq!(e.b, 3);
    for a in 0..=255u8 {
        let e = F5x2::new(a, 255 - a);
        assert!(e.a < 5 && e.b < 5);
    }
}

#[test]
fn arithmetic_stays_reduced() {
    for x in all_elements() {
        for y in all_elements() {
            let s = x.add(y);
            let d = x.sub(y);
            let p = x.mul(y);
            assert!(s.a < 5 && s.b < 5);
            assert!(d.a < 5 && d.b < 5);
            assert!(p.a < 5 && p.b < 5);
        }
    }
}

#[test]
fn known_products() {
    // (1 + 2t) * (3 + 4t) = 3 + 4t + 6t + 8*t^2 = 3 + 10t + 8*3 = 27 + 10t = 2 + 0t
    let p = F5x2::new(1, 2).mul(F5x2::new(3, 4));
    assert_eq!(p, F5x2::new(2, 0));
    // t * t = 3
    let t2 = F5x2::new(0, 1).mul(F5x2::new(0, 1));
    assert_eq!(t2, F5x2::new(3, 0));
}

#[test]
fn mod_inverse_base_field() {
    assert_eq!(F5x2::mod_inverse(1, 5), 1);
    assert_eq!(F5x2::mod_inverse(2, 5), 3);
    assert_eq!(F5x2::mod_inverse(3, 5), 2);
    assert_eq!(F5x2::mod_inverse(4, 5), 4);
}

#[test]
fn multiplicative_inverse_of_every_nonzero_element() {
    let one = F5x2::new(1, 0);
    for x in all_elements() {
        if x != F5x2::new(0, 0) {
            assert_eq!(x.mul(x.inverse()), one);
        }
    }
}

#[test]
fn additive_inverse_of_every_element() {
    let zero = F5x2::new(0, 0);
    for x in all_elements() {
        let neg = zero.sub(x);
        assert_eq!(x.add(neg), zero);
    }
}

#[test]
fn division_undoes_multiplication() {
    for x in all_elements() {
        for y in all_elements() {
            if y != F5x2::new(0, 0) {
                assert_eq!(x.mul(y).div(y), x);
            }
        }
    }
}

#[test]
fn add_and_mul_commute_and_associate() {
    let elems = all_elements();
    for &x in &elems {
        for &y in &elems {
            assert_eq!(x.add(y), y.add(x));
            assert_eq!(x.mul(y), y.mul(x));
            for &z in &elems {
                assert_eq!(x.add(y).add(z), x.add(y.add(z)));
                assert_eq!(x.mul(y).mul(z), x.mul(y.mul(z)));
            }
        }
    }
}
