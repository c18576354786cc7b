//! Elements of the degree-2 extension field F(5^2) and their arithmetic.
//!
//! An element is written a + b*t, where t is a root of the irreducible
//! polynomial t^2 + 2 over F(5), so t^2 = 3 (mod 5).  Both coefficients are
//! kept canonically reduced to the range [0, 5).

use vstd::arithmetic::div_mod::{
    lemma_add_mod_noop, lemma_fundamental_div_mod, lemma_mod_multiples_vanish, lemma_mod_twice,
    lemma_mul_mod_noop_general, lemma_mul_mod_noop_right,
};
use vstd::arithmetic::mul::{
    lemma_mul_is_associative, lemma_mul_is_commutative, lemma_mul_is_distributive_add,
    lemma_mul_is_distributive_add_other_way,
};
use vstd::prelude::*;

verus! {

/// An element a + b*t of F(5^2), with t^2 = 3 (mod 5).
#[derive(Clone, Copy, Debug, PartialEq, Eq, Structural)]
pub struct F5x2 {
    /// Coefficient of 1, canonically in [0, 5).
    pub a: u8,
    /// Coefficient of t, canonically in [0, 5).
    pub b: u8,
}

/// The additive identity 0.
pub open spec fn f_zero() -> F5x2 {
    F5x2 { a: 0, b: 0 }
}

/// The multiplicative identity 1.
pub open spec fn f_one() -> F5x2 {
    F5x2 { a: 1, b: 0 }
}

/// Coefficient-wise addition mod 5.
pub open spec fn f_add(x: F5x2, y: F5x2) -> F5x2 {
    F5x2 { a: (((x.a + y.a) % 5) as u8), b: (((x.b + y.b) % 5) as u8) }
}

/// Coefficient-wise subtraction mod 5.
pub open spec fn f_sub(x: F5x2, y: F5x2) -> F5x2 {
    F5x2 { a: (((x.a + 5 - y.a) % 5) as u8), b: (((x.b + 5 - y.b) % 5) as u8) }
}

/// Multiplication induced by t^2 = 3:
/// (a + b*t)(c + d*t) = (ac + 3bd) + (ad + bc)t, coefficients mod 5.
pub open spec fn f_mul(x: F5x2, y: F5x2) -> F5x2 {
    F5x2 {
        a: (((x.a * y.a + 3 * (x.b * y.b)) % 5) as u8),
        b: (((x.a * y.b + x.b * y.a) % 5) as u8),
    }
}

impl F5x2 {
    /// Both coefficients are canonically reduced.
    pub open spec fn wf(self) -> bool {
        self.a < 5 && self.b < 5
    }

    /// Constructs the canonical element a + b*t, reducing each coefficient mod 5.
    pub fn new(a: u8, b: u8) -> (r: Self)
        ensures
            r.a == a % 5,
            r.b == b % 5,
            r.wf(),
    {
        F5x2 { a: a % 5, b: b % 5 }
    }

    /// Field addition; the result is again canonically reduced.
    pub fn add(self, other: F5x2) -> (r: F5x2)
        requires
            self.wf(),
            other.wf(),
        ensures
            r == f_add(self, other),
            r.wf(),
    {
        F5x2::new((self.a + other.a) % 5, (self.b + other.b) % 5)
    }

    /// Field subtraction; the result is again canonically reduced.
    #[verifier::rlimit(50)]
    pub fn sub(self, other: F5x2) -> (r: F5x2)
        requires
            self.wf(),
            other.wf(),
        ensures
            r == f_sub(self, other),
            r.wf(),
    {
        F5x2::new((self.a + 5 - other.a) % 5, (self.b + 5 - other.b) % 5)
    }

    /// Field multiplication; the result is again canonically reduced.
    #[verifier::rlimit(100)]
    pub fn mul(self, other: F5x2) -> (r: F5x2)
        requires
            self.wf(),
            other.wf(),
        ensures
            r == f_mul(self, other),
            r.wf(),
    {
        let a = self.a as u16;
        let b = self.b as u16;
        let c = other.a as u16;
        let d = other.b as u16;

        proof {
            assert(a * c < 25 && b * d < 25 && a * d < 25 && b * c < 25) by (nonlinear_arith)
                requires
                    a < 5,
                    b < 5,
                    c < 5,
                    d < 5,
            ;
        }
        let ac = (a * c) % 5;
        let bd = (b * d) % 5;
        let ad_plus_bc = (a * d + b * c) % 5;
        let new_a = (ac + 3 * bd) % 5;
        let new_b = ad_plus_bc % 5;

        proof {
            lemma_reduce_linear_pair((a * c) as int, (b * d) as int, 5);
            assert(a * c == self.a * other.a);
            assert(b * d == self.b * other.b);
            assert(a * d + b * c == self.a * other.b + self.b * other.a);
        }
        F5x2::new(new_a as u8, new_b as u8)
    }

    /// Division self / other; other must be nonzero.
    pub fn div(self, other: F5x2) -> (r: F5x2)
        requires
            self.wf(),
            other.wf(),
            other != f_zero(),
        ensures
            r == f_div(self, other),
            f_mul(r, other) == self,
            r.wf(),
    {
        let inv = other.inverse();
        let r = self.mul(inv);
        proof {
            lemma_f_mul_assoc(self, inv, other);
            lemma_f_mul_comm(inv, other);
            lemma_f_mul_one(self);
        }
        r
    }

    /// Multiplicative inverse of a nonzero element, via the norm map:
    /// for z = a + b*t the conjugate is a - b*t, the norm is a^2 - 3*b^2,
    /// and z^{-1} = (a - b*t) * (a^2 - 3*b^2)^{-1}.
    pub fn inverse(self) -> (r: F5x2)
        requires
            self.wf(),
            self != f_zero(),
        ensures
            r == f_inv(self),
            f_mul(self, r) == f_one(),
            r.wf(),
    {
        let a = self.a as u16;
        let b = self.b as u16;
        proof {
            assert(a * a <= 16 && b * b <= 16) by (nonlinear_arith)
                requires
                    a < 5,
                    b < 5,
            ;
            lemma_norm_nonzero(a as int, b as int);
            lemma_mod_multiples_vanish(12, a * a - 3 * (b * b), 5);
            lemma_mod5_inverse_exists(((a * a - 3 * (b * b)) % 5) as int);
        }
        let denominator = ((a * a + 60 - 3 * (b * b)) % 5) as u8;
        let inv_denominator = F5x2::mod_inverse(denominator, 5);

        let w = inv_denominator as u16;
        proof {
            assert(a * w <= 16 && b * w <= 16) by (nonlinear_arith)
                requires
                    a < 5,
                    b < 5,
                    w < 5,
            ;
        }
        let new_a = ((a * w) % 5) as u8;
        let new_b = ((5 - (b * w) % 5) % 5) as u8;
        let r = F5x2 { a: new_a, b: new_b };
        proof {
            lemma_inverse_formula(a as int, b as int, w as int);
            assert(f_mul(self, r) == f_one());
            lemma_f_inv_unique(self, r);
        }
        r
    }

    /// Multiplicative inverse of x modulo p, by exhaustive search over [1, p).
    pub fn mod_inverse(x: u8, p: u8) -> (r: u8)
        requires
            exists|w: int| 1 <= w < p && #[trigger] ((x as int * w) % (p as int)) == 1,
        ensures
            1 <= r < p,
            (x as int * r) % (p as int) == 1,
    {
        proof {
            let w0 = choose|w: int| 1 <= w < p && #[trigger] ((x as int * w) % (p as int)) == 1;
        }
        let mut i: u8 = 1;
        while i < p
            invariant
                1 <= i <= p,
                forall|j: int| 1 <= j < i ==> #[trigger] ((x as int * j) % (p as int)) != 1,
                exists|w: int| 1 <= w < p && #[trigger] ((x as int * w) % (p as int)) == 1,
            decreases p - i,
        {
            proof {
                assert(x as int * i as int <= 255 * 255) by (nonlinear_arith)
                    requires
                        x <= 255,
                        i <= 255,
                ;
            }
            if (x as u16 * i as u16) % (p as u16) == 1 {
                return i;
            }
            i = i + 1;
        }
        proof {
            let w0 = choose|w: int| 1 <= w < p && #[trigger] ((x as int * w) % (p as int)) == 1;
            assert(false);
        }
        0
    }
}

/// Addition is commutative.
pub proof fn lemma_f_add_comm(x: F5x2, y: F5x2)
    ensures
        f_add(x, y) == f_add(y, x),
{
}

/// Addition is associative.
pub proof fn lemma_f_add_assoc(x: F5x2, y: F5x2, z: F5x2)
    ensures
        f_add(f_add(x, y), z) == f_add(x, f_add(y, z)),
{
    lemma_cong5_mod(x.a + y.a);
    lemma_cong5_add((x.a + y.a) % 5, z.a as int, x.a + y.a, z.a as int);
    lemma_cong5_mod(y.a + z.a);
    lemma_cong5_add(x.a as int, (y.a + z.a) % 5, x.a as int, y.a + z.a);
    lemma_cong5_mod(x.b + y.b);
    lemma_cong5_add((x.b + y.b) % 5, z.b as int, x.b + y.b, z.b as int);
    lemma_cong5_mod(y.b + z.b);
    lemma_cong5_add(x.b as int, (y.b + z.b) % 5, x.b as int, y.b + z.b);
}

/// Adding the additive inverse of x (that is, 0 - x) gives 0.
pub proof fn lemma_f_add_neg(x: F5x2)
    requires
        x.wf(),
    ensures
        f_add(x, f_sub(f_zero(), x)) == f_zero(),
{
}

/// Multiplication is commutative.
pub proof fn lemma_f_mul_comm(x: F5x2, y: F5x2)
    ensures
        f_mul(x, y) == f_mul(y, x),
{
    assert(x.a * y.a == y.a * x.a && x.b * y.b == y.b * x.b && x.a * y.b + x.b * y.a == y.a * x.b
        + y.b * x.a) by (nonlinear_arith);
}

/// 1 is the multiplicative identity.
pub proof fn lemma_f_mul_one(x: F5x2)
    requires
        x.wf(),
    ensures
        f_mul(x, f_one()) == x,
        f_mul(f_one(), x) == x,
{
}

/// Multiplication is associative.
#[verifier::rlimit(50)]
pub proof fn lemma_f_mul_assoc(x: F5x2, y: F5x2, z: F5x2)
    ensures
        f_mul(f_mul(x, y), z) == f_mul(x, f_mul(y, z)),
{
    let xa = x.a as int;
    let xb = x.b as int;
    let ya = y.a as int;
    let yb = y.b as int;
    let za = z.a as int;
    let zb = z.b as int;
    let p = xa * ya + 3 * (xb * yb);
    let q = xa * yb + xb * ya;
    let r = ya * za + 3 * (yb * zb);
    let s = ya * zb + yb * za;
    lemma_cong5_mod(p);
    lemma_cong5_mod(q);
    lemma_cong5_mod(r);
    lemma_cong5_mod(s);
    // first coefficient
    lemma_cong5_mul(p % 5, za, p, za);
    lemma_cong5_mul(q % 5, zb, q, zb);
    lemma_cong5_mul(3, (q % 5) * zb, 3, q * zb);
    lemma_cong5_add((p % 5) * za, 3 * ((q % 5) * zb), p * za, 3 * (q * zb));
    lemma_cong5_mul(xa, r % 5, xa, r);
    lemma_cong5_mul(xb, s % 5, xb, s);
    lemma_cong5_mul(3, xb * (s % 5), 3, xb * s);
    lemma_cong5_add(xa * (r % 5), 3 * (xb * (s % 5)), xa * r, 3 * (xb * s));
    assert((xa * ya + 3 * (xb * yb)) * za + 3 * ((xa * yb + xb * ya) * zb) == xa * (ya * za + 3 * (
    yb * zb)) + 3 * (xb * (ya * zb + yb * za))) by (nonlinear_arith)
        requires
            0 <= xa < 256 && 0 <= xb < 256 && 0 <= ya < 256,
            0 <= yb < 256 && 0 <= za < 256 && 0 <= zb < 256,
    ;
    // second coefficient
    lemma_cong5_mul(p % 5, zb, p, zb);
    lemma_cong5_mul(q % 5, za, q, za);
    lemma_cong5_add((p % 5) * zb, (q % 5) * za, p * zb, q * za);
    lemma_cong5_mul(xa, s % 5, xa, s);
    lemma_cong5_mul(xb, r % 5, xb, r);
    lemma_cong5_add(xa * (s % 5), xb * (r % 5), xa * s, xb * r);
    assert((xa * ya + 3 * (xb * yb)) * zb + (xa * yb + xb * ya) * za == xa * (ya * zb + yb * za)
        + xb * (ya * za + 3 * (yb * zb))) by {
        lemma_mul_is_distributive_add_other_way(zb, xa * ya, 3 * (xb * yb));
        lemma_mul_is_distributive_add_other_way(za, xa * yb, xb * ya);
        lemma_mul_is_distributive_add(xa, ya * zb, yb * za);
        lemma_mul_is_distributive_add(xb, ya * za, 3 * (yb * zb));
        lemma_mul_is_associative(xa, ya, zb);
        lemma_mul_is_associative(xa, yb, za);
        lemma_mul_is_associative(xb, ya, za);
        lemma_mul_is_associative(3, xb * yb, zb);
        lemma_mul_is_associative(xb, yb, zb);
        lemma_mul_is_associative(xb, 3, yb * zb);
        lemma_mul_is_commutative(xb, 3);
        lemma_mul_is_associative(3, xb, yb * zb);
    }
}

/// The multiplicative inverse of a nonzero element exists: f_inv(x) is
/// canonical and multiplies with x to 1.
pub proof fn lemma_f_inv_props(x: F5x2)
    requires
        x.wf(),
        x != f_zero(),
    ensures
        f_inv(x).wf(),
        f_mul(x, f_inv(x)) == f_one(),
{
    let a = x.a as int;
    let b = x.b as int;
    lemma_norm_nonzero(a, b);
    let n = (a * a - 3 * (b * b)) % 5;
    lemma_mod5_inverse_exists(n);
    let w = choose|w: int| 1 <= w < 5 && #[trigger] ((n * w) % 5) == 1;
    lemma_inverse_formula(a, b, w);
    let y = F5x2 { a: (((a * w) % 5) as u8), b: ((((5 - (b * w) % 5) % 5)) as u8) };
    assert(y.wf() && f_mul(x, y) == f_one());
}

/// The multiplicative inverse is unique: any y with x * y == 1 is f_inv(x).
pub proof fn lemma_f_inv_unique(x: F5x2, y: F5x2)
    requires
        y.wf(),
        f_mul(x, y) == f_one(),
    ensures
        y == f_inv(x),
{
    let z = f_inv(x);
    assert(z.wf() && f_mul(x, z) == f_one());
    lemma_f_mul_assoc(y, x, z);
    lemma_f_mul_comm(y, x);
    lemma_f_mul_one(z);
    lemma_f_mul_one(y);
}

/// Reducing each summand mod m before forming x + 3*y does not change the
/// value mod m.
proof fn lemma_reduce_linear_pair(x: int, y: int, m: int)
    requires
        m > 0,
    ensures
        ((x % m) + 3 * (y % m)) % m == (x + 3 * y) % m,
{
    lemma_add_mod_noop(x % m, 3 * (y % m), m);
    lemma_mod_twice(x, m);
    lemma_mul_mod_noop_right(3, y, m);
    lemma_add_mod_noop(x, 3 * y, m);
}

/// The multiplicative inverse of a nonzero element, as a spec-level value:
/// the canonical element that multiplies with x to 1.
pub open spec fn f_inv(x: F5x2) -> F5x2 {
    choose|y: F5x2| y.wf() && f_mul(x, y) == f_one()
}

/// Division x / y, as multiplication by the inverse of y.
pub open spec fn f_div(x: F5x2, y: F5x2) -> F5x2 {
    f_mul(x, f_inv(y))
}

/// Congruence modulo 5.
spec fn cong5(x: int, y: int) -> bool {
    x % 5 == y % 5
}

/// Congruence mod 5 is compatible with addition.
proof fn lemma_cong5_add(x1: int, y1: int, x2: int, y2: int)
    requires
        cong5(x1, x2),
        cong5(y1, y2),
    ensures
        cong5(x1 + y1, x2 + y2),
{
    lemma_add_mod_noop(x1, y1, 5);
    lemma_add_mod_noop(x2, y2, 5);
}

/// Congruence mod 5 is compatible with multiplication.
proof fn lemma_cong5_mul(x1: int, y1: int, x2: int, y2: int)
    requires
        cong5(x1, x2),
        cong5(y1, y2),
    ensures
        cong5(x1 * y1, x2 * y2),
{
    lemma_mul_mod_noop_general(x1, y1, 5);
    lemma_mul_mod_noop_general(x2, y2, 5);
}

/// A value reduced mod 5 is congruent to the value itself.
proof fn lemma_cong5_mod(x: int)
    ensures
        cong5(x % 5, x),
{
    lemma_mod_twice(x, 5);
}

/// The canonical residue of the negation: (5 - x % 5) % 5 == (-x) % 5.
proof fn lemma_cong5_five_minus(x: int)
    ensures
        (5 - x % 5) % 5 == (-x) % 5,
{
    lemma_fundamental_div_mod(x, 5);
    lemma_mod_multiples_vanish(-(x / 5), -(x % 5), 5);
    lemma_mod_multiples_vanish(1, -(x % 5), 5);
}

/// The norm a^2 - 3*b^2 of a nonzero element is a nonzero residue mod 5,
/// because 3 is not a square mod 5 (t^2 - 3 is irreducible over F(5)).
proof fn lemma_norm_nonzero(a: int, b: int)
    requires
        0 <= a < 5,
        0 <= b < 5,
        !(a == 0 && b == 0),
    ensures
        (a * a - 3 * (b * b)) % 5 != 0,
{
    assert((a * a - 3 * (b * b)) % 5 != 0) by (nonlinear_arith)
        requires
            0 <= a < 5,
            0 <= b < 5,
            !(a == 0 && b == 0),
    ;
}

/// Every nonzero residue mod 5 has a multiplicative inverse mod 5.
proof fn lemma_mod5_inverse_exists(n: int)
    requires
        1 <= n < 5,
    ensures
        exists|w: int| 1 <= w < 5 && #[trigger] ((n * w) % 5) == 1,
{
    if n == 1 {
        assert((n * 1) % 5 == 1);
    } else if n == 2 {
        assert((n * 3) % 5 == 1);
    } else if n == 3 {
        assert((n * 2) % 5 == 1);
    } else {
        assert((n * 4) % 5 == 1);
    }
}

/// The norm-based inversion formula yields a multiplicative inverse:
/// for nonzero a + b*t with norm n = a^2 - 3*b^2 and w the inverse of n
/// mod 5, the element (a*w) + (-b*w)*t multiplies with a + b*t to 1.
proof fn lemma_inverse_formula(a: int, b: int, w: int)
    requires
        0 <= a < 5,
        0 <= b < 5,
        0 <= w < 5,
        ((((a * a - 3 * (b * b)) % 5) * w) % 5) == 1,
    ensures
        (a * ((a * w) % 5) + 3 * (b * ((5 - (b * w) % 5) % 5))) % 5 == 1,
        (a * ((5 - (b * w) % 5) % 5) + b * ((a * w) % 5)) % 5 == 0,
{
    let n = (a * a - 3 * (b * b)) % 5;
    let u = (a * w) % 5;
    let v = (5 - (b * w) % 5) % 5;
    lemma_cong5_five_minus(b * w);
    assert(v == (-(b * w)) % 5);
    lemma_cong5_mod(a * w);
    lemma_cong5_mod(-(b * w));
    // a * u + 3 * (b * v)  ≡  a*(a*w) + 3*(b*(-(b*w)))  =  (a*a - 3*(b*b)) * w
    lemma_cong5_mul(a, u, a, a * w);
    lemma_cong5_mul(b, v, b, -(b * w));
    lemma_cong5_mul(3, b * v, 3, b * (-(b * w)));
    lemma_cong5_add(a * u, 3 * (b * v), a * (a * w), 3 * (b * (-(b * w))));
    assert(a * (a * w) + 3 * (b * (-(b * w))) == (a * a - 3 * (b * b)) * w) by (nonlinear_arith);
    lemma_cong5_mod(a * a - 3 * (b * b));
    lemma_cong5_mul(a * a - 3 * (b * b), w, n, w);
    lemma_cong5_mod(n * w);
    assert(cong5(a * u + 3 * (b * v), n * w));
    assert((a * u + 3 * (b * v)) % 5 == 1);
    // a * v + b * u  ≡  a*(-(b*w)) + b*(a*w)  =  0
    lemma_cong5_mul(a, v, a, -(b * w));
    lemma_cong5_mul(b, u, b, a * w);
    lemma_cong5_add(a * v, b * u, a * (-(b * w)), b * (a * w));
    assert(a * (-(b * w)) + b * (a * w) == 0) by (nonlinear_arith);
    assert((a * v + b * u) % 5 == 0);
}

} // verus!
