//! Points on a short-Weierstrass elliptic curve y^2 = x^3 + a*x + b over
//! F(5^2), and the chord-and-tangent group law.
//!
//! A point is either the distinguished point at infinity (the group
//! identity, encoded as both coordinates absent) or an affine pair (x, y).
//! The curve parameter a is passed explicitly to every group-law operation;
//! a point does not record which curve it belongs to.

use crate::field::{f_add, f_div, f_mul, f_sub, f_zero, F5x2};
use vstd::prelude::*;

verus! {

/// A point on the curve: an affine pair (x, y), or the point at infinity
/// encoded as both coordinates absent.
#[derive(Clone, Copy, Debug, PartialEq, Eq)]
pub struct Point {
    pub x: Option<F5x2>,
    pub y: Option<F5x2>,
}

/// The point at infinity, as a spec-level value.
pub open spec fn infinity() -> Point {
    Point { x: None, y: None }
}

/// An affine point, as a spec-level value.
pub open spec fn affine(x: F5x2, y: F5x2) -> Point {
    Point { x: Some(x), y: Some(y) }
}

impl Point {
    /// Either both coordinates are absent (the point at infinity) or both
    /// are present and canonically reduced; a state with exactly one
    /// coordinate absent is invalid and never constructed.
    pub open spec fn wf(self) -> bool {
        match (self.x, self.y) {
            (None, None) => true,
            (Some(x), Some(y)) => x.wf() && y.wf(),
            _ => false,
        }
    }

    /// The point is the group identity.
    pub open spec fn is_infinity(self) -> bool {
        self.x is None && self.y is None
    }

    /// Constructs a point from its optional coordinates.  The coordinates
    /// must be both present (an affine point the caller knows to be on the
    /// curve) or both absent (the point at infinity).
    pub fn new(x: Option<F5x2>, y: Option<F5x2>) -> (r: Self)
        requires
            x is Some <==> y is Some,
            x is Some ==> x->0.wf() && y->0.wf(),
        ensures
            r == (Point { x, y }),
            r.wf(),
    {
        Point { x, y }
    }

    /// Tests whether the point is the group identity.
    pub fn is_at_infinity(&self) -> (r: bool)
        requires
            self.wf(),
        ensures
            r == self.is_infinity(),
    {
        self.x.is_none() && self.y.is_none()
    }

    /// The point at infinity.
    pub fn at_infinity() -> (r: Self)
        ensures
            r == infinity(),
            r.wf(),
    {
        Point { x: None, y: None }
    }
}

/// The sum of two points under the chord-and-tangent law, as a spec-level
/// value: the identity rules, then the vertical-line rule (equal x,
/// different y), then the tangent (doubling) or chord slope.
pub open spec fn spec_point_add(p: Point, q: Point, a: F5x2) -> Point {
    if p.is_infinity() {
        q
    } else if q.is_infinity() {
        p
    } else {
        let x1 = p.x->0;
        let y1 = p.y->0;
        let x2 = q.x->0;
        let y2 = q.y->0;
        if x1 == x2 && y1 != y2 {
            infinity()
        } else {
            let lambda = if x1 == x2 && y1 == y2 {
                f_div(f_add(f_mul(f_mul(x1, x1), F5x2 { a: 3, b: 0 }), a), f_mul(y1, F5x2 { a: 2, b: 0 }))
            } else {
                f_div(f_sub(y2, y1), f_sub(x2, x1))
            };
            let x3 = f_sub(f_sub(f_mul(lambda, lambda), x1), x2);
            let y3 = f_sub(f_mul(lambda, f_sub(x1, x3)), y1);
            affine(x3, y3)
        }
    }
}

/// The group-law sum is defined (no division by zero arises): this excludes
/// exactly one case, doubling an affine point whose y coordinate is zero.
pub open spec fn add_defined(p: Point, q: Point) -> bool {
    !(!p.is_infinity() && p == q && p.y->0 == f_zero())
}

/// Adds two points on the curve y^2 = x^3 + a*x + b.
pub fn point_add(p: Point, q: Point, a: F5x2) -> (r: Point)
    requires
        p.wf(),
        q.wf(),
        a.wf(),
        add_defined(p, q),
    ensures
        r == spec_point_add(p, q, a),
        r.wf(),
{
    if p.is_at_infinity() {
        return q;
    }
    if q.is_at_infinity() {
        return p;
    }

    let (x1, y1) = (p.x.unwrap(), p.y.unwrap());
    let (x2, y2) = (q.x.unwrap(), q.y.unwrap());

    if x1 == x2 && y1 != y2 {
        return Point::at_infinity();
    }

    let lambda = if x1 == x2 && y1 == y2 {
        // tangent slope: (3*x1^2 + a) / (2*y1)
        let numerator = x1.mul(x1).mul(F5x2::new(3, 0)).add(a);
        let denominator = y1.mul(F5x2::new(2, 0));
        proof {
            lemma_double_nonzero(y1);
        }
        numerator.div(denominator)
    } else {
        // chord slope: (y2 - y1) / (x2 - x1)
        let numerator = y2.sub(y1);
        let denominator = x2.sub(x1);
        proof {
            lemma_sub_nonzero(x2, x1);
        }
        numerator.div(denominator)
    };

    let x3 = lambda.mul(lambda).sub(x1).sub(x2);
    let y3 = lambda.mul(x1.sub(x3)).sub(y1);
    Point::new(Some(x3), Some(y3))
}

/// Doubling 2*y of a nonzero coefficient pair is nonzero, since 2 is
/// invertible mod 5.
proof fn lemma_double_nonzero(y: F5x2)
    requires
        y.wf(),
        y != f_zero(),
    ensures
        f_mul(y, F5x2 { a: 2, b: 0 }) != f_zero(),
{
}

/// The difference of two distinct canonical elements is nonzero.
proof fn lemma_sub_nonzero(x: F5x2, y: F5x2)
    requires
        x.wf(),
        y.wf(),
        x != y,
    ensures
        f_sub(x, y) != f_zero(),
{
}

/// One round of double-and-add, as a spec-level value: starting from the
/// accumulator acc and the running doubling base, with the remaining scalar
/// bits n, this is the final accumulator.  The base is doubled on every
/// round, also the last, exactly as the executable loop does.
pub open spec fn spec_mul_loop(n: nat, base: Point, acc: Point, a: F5x2) -> Point
    decreases n,
{
    if n == 0 {
        acc
    } else {
        let acc2 = if n % 2 == 1 {
            spec_point_add(acc, base, a)
        } else {
            acc
        };
        spec_mul_loop(n / 2, spec_point_add(base, base, a), acc2, a)
    }
}

/// The scalar multiple n * p by double-and-add, as a spec-level value.
pub open spec fn spec_point_mul(n: nat, p: Point, a: F5x2) -> Point {
    spec_mul_loop(n, p, infinity(), a)
}

/// Every point addition performed by double-and-add on the remaining scalar
/// bits n is defined (no doubling of an affine point with y == 0 arises,
/// neither of the base nor between accumulator and base).
pub open spec fn mul_defined(n: nat, base: Point, acc: Point, a: F5x2) -> bool
    decreases n,
{
    n == 0 || {
        let acc2 = if n % 2 == 1 {
            spec_point_add(acc, base, a)
        } else {
            acc
        };
        &&& (n % 2 == 1 ==> add_defined(acc, base))
        &&& add_defined(base, base)
        &&& mul_defined(n / 2, spec_point_add(base, base, a), acc2, a)
    }
}

/// Scalar multiplication n * p by double-and-add: iterate over the bits of
/// n from least to most significant, accumulating the current doubling of
/// the base whenever the bit is set.
pub fn point_mul(n: u8, p: Point, a: F5x2) -> (r: Point)
    requires
        p.wf(),
        a.wf(),
        mul_defined(n as nat, p, infinity(), a),
    ensures
        r == spec_point_mul(n as nat, p, a),
        r.wf(),
{
    let mut result = Point::at_infinity();
    let mut base = p;
    let mut k = n;

    while k > 0
        invariant
            base.wf(),
            result.wf(),
            a.wf(),
            mul_defined(k as nat, base, result, a),
            spec_mul_loop(k as nat, base, result, a) == spec_point_mul(n as nat, p, a),
        decreases k,
    {
        proof {
            assert(k & 1 == k % 2) by (bit_vector);
            assert(k >> 1 == k / 2) by (bit_vector);
        }
        if k & 1 == 1 {
            result = point_add(result, base, a);
        }
        base = point_add(base, base, a);
        k = k >> 1;
    }

    result
}

/// The point at infinity is the group identity: adding it on either side
/// returns the other point unchanged.
pub proof fn lemma_add_identity(p: Point, a: F5x2)
    ensures
        spec_point_add(p, infinity(), a) == p,
        spec_point_add(infinity(), p, a) == p,
{
}

/// The mirror image of an affine point is its group inverse: adding
/// (x, -y) to (x, y) gives the point at infinity.  (For y == 0 the sum is
/// a doubling with zero denominator, which the group law leaves out.)
pub proof fn lemma_add_inverse(x: F5x2, y: F5x2, a: F5x2)
    requires
        x.wf(),
        y.wf(),
        y != f_zero(),
    ensures
        spec_point_add(affine(x, y), affine(x, f_sub(f_zero(), y)), a) == infinity(),
{
    assert(f_sub(f_zero(), y) != y);
}

/// Scalar multiplication by 0 gives the identity, and by 1 the point
/// itself.
pub proof fn lemma_mul_zero_one(p: Point, a: F5x2)
    ensures
        spec_point_mul(0, p, a) == infinity(),
        spec_point_mul(1, p, a) == p,
{
    assert(spec_point_mul(1, p, a) == spec_mul_loop(0, spec_point_add(p, p, a), p, a));
}

/// Every scalar multiple of the point at infinity is the point at infinity.
pub proof fn lemma_mul_infinity(n: nat, a: F5x2)
    ensures
        spec_mul_loop(n, infinity(), infinity(), a) == infinity(),
    decreases n,
{
    if n > 0 {
        lemma_mul_infinity(n / 2, a);
    }
}

} // verus!
