//! Brute-force enumeration over the field F(5^2): listing all field
//! elements, all affine points on a curve, and the full r-torsion subgroup.

use crate::curve::{
    add_defined, affine, infinity, lemma_mul_infinity, mul_defined, point_mul, spec_mul_loop,
    spec_point_mul, Point,
};
use crate::field::{f_add, f_mul, F5x2};
use vstd::prelude::*;

verus! {

/// The right-hand side x^3 + a*x + b of the curve equation.
pub open spec fn curve_rhs(x: F5x2, a: F5x2, b: F5x2) -> F5x2 {
    f_add(f_add(f_mul(f_mul(x, x), x), f_mul(a, x)), b)
}

/// The affine pair (x, y) satisfies the curve equation y^2 = x^3 + a*x + b.
pub open spec fn on_curve(x: F5x2, y: F5x2, a: F5x2, b: F5x2) -> bool {
    f_mul(y, y) == curve_rhs(x, a, b)
}

/// The points kept by a brute-force scan of all candidate pairs
/// (fe[0..], fe[0..]) in lexicographic order, up to but not including
/// column j of row i: every pair (fe[i'], fe[j']) with (i', j') before
/// (i, j) for which keep holds, as affine points, in scan order.
pub open spec fn scan_points(
    fe: Seq<F5x2>,
    i: int,
    j: int,
    keep: spec_fn(F5x2, F5x2) -> bool,
) -> Seq<Point>
    decreases i, j,
{
    if i <= 0 && j <= 0 {
        Seq::empty()
    } else if j <= 0 {
        scan_points(fe, i - 1, fe.len() as int, keep)
    } else {
        let prev = scan_points(fe, i, j - 1, keep);
        if 0 <= i < fe.len() && keep(fe[i], fe[j - 1]) {
            prev.push(affine(fe[i], fe[j - 1]))
        } else {
            prev
        }
    }
}

/// Produces the full ordered enumeration of the 25 field elements: all
/// pairs a + b*t with a, b in [0, 5), the coefficient of 1 varying in the
/// outer position.
pub fn enumerate_field_elements() -> (r: Vec<F5x2>)
    ensures
        r@.len() == 25,
        forall|k: int|
            0 <= k < 25 ==> #[trigger] r@[k] == (F5x2 { a: ((k / 5) as u8), b: ((k % 5) as u8) }),
        forall|k: int| 0 <= k < 25 ==> (#[trigger] r@[k]).wf(),
{
    let mut r: Vec<F5x2> = Vec::new();
    let mut a: u8 = 0;
    while a < 5
        invariant
            a <= 5,
            r@.len() == a * 5,
            forall|k: int|
                0 <= k < r@.len() ==> #[trigger] r@[k] == (F5x2 {
                    a: ((k / 5) as u8),
                    b: ((k % 5) as u8),
                }),
        decreases 5 - a,
    {
        let mut b: u8 = 0;
        while b < 5
            invariant
                a < 5,
                b <= 5,
                r@.len() == a * 5 + b,
                forall|k: int|
                    0 <= k < r@.len() ==> #[trigger] r@[k] == (F5x2 {
                        a: ((k / 5) as u8),
                        b: ((k % 5) as u8),
                    }),
            decreases 5 - b,
        {
            r.push(F5x2::new(a, b));
            b = b + 1;
        }
        a = a + 1;
    }
    r
}

/// Lists every affine point of the curve y^2 = x^3 + a*x + b whose
/// coordinates are drawn from field_elements, by brute force: for each
/// candidate x the right-hand side is computed once, and every candidate y
/// with y^2 equal to it yields a point, in scan order.
pub fn enumerate_curve_points(a: F5x2, b: F5x2, field_elements: &Vec<F5x2>) -> (r: Vec<Point>)
    requires
        a.wf(),
        b.wf(),
        forall|k: int| 0 <= k < field_elements@.len() ==> (#[trigger] field_elements@[k]).wf(),
    ensures
        r@ == scan_points(
            field_elements@,
            field_elements@.len() as int,
            0,
            |x: F5x2, y: F5x2| on_curve(x, y, a, b),
        ),
        forall|k: int| 0 <= k < r@.len() ==> (#[trigger] r@[k]).wf() && !r@[k].is_infinity(),
{
    let keep = Ghost(|x: F5x2, y: F5x2| on_curve(x, y, a, b));
    let mut r: Vec<Point> = Vec::new();
    let n = field_elements.len();
    let mut i: usize = 0;
    while i < n
        invariant
            n == field_elements@.len(),
            a.wf(),
            b.wf(),
            forall|k: int| 0 <= k < field_elements@.len() ==> (#[trigger] field_elements@[k]).wf(),
            i <= n,
            r@ == scan_points(field_elements@, i as int, 0, keep@),
            keep@ == (|x: F5x2, y: F5x2| on_curve(x, y, a, b)),
            forall|k: int| 0 <= k < r@.len() ==> (#[trigger] r@[k]).wf() && !r@[k].is_infinity(),
        decreases n - i,
    {
        let x = field_elements[i];
        let x_cubed = x.mul(x).mul(x);
        let rhs = x_cubed.add(a.mul(x)).add(b);
        let mut j: usize = 0;
        while j < n
            invariant
                n == field_elements@.len(),
                a.wf(),
                b.wf(),
                forall|k: int|
                    0 <= k < field_elements@.len() ==> (#[trigger] field_elements@[k]).wf(),
                i < n,
                j <= n,
                x == field_elements@[i as int],
                rhs == curve_rhs(x, a, b),
                r@ == scan_points(field_elements@, i as int, j as int, keep@),
                keep@ == (|x: F5x2, y: F5x2| on_curve(x, y, a, b)),
                forall|k: int| 0 <= k < r@.len() ==> (#[trigger] r@[k]).wf() && !r@[k].is_infinity(),
            decreases n - j,
        {
            let y = field_elements[j];
            if y.mul(y) == rhs {
                r.push(Point::new(Some(x), Some(y)));
            }
            j = j + 1;
        }
        i = i + 1;
    }
    r
}

/// Scalar multiplication that reports an undefined intermediate sum instead
/// of requiring its absence: returns the multiple n * p when every point
/// addition performed by double-and-add is defined, and None when one would
/// double an affine point with y == 0.
pub fn try_point_mul(n: u8, p: Point, a: F5x2) -> (r: Option<Point>)
    requires
        p.wf(),
        a.wf(),
    ensures
        r is Some <==> mul_defined(n as nat, p, infinity(), a),
        r is Some ==> r->0 == spec_point_mul(n as nat, p, a) && r->0.wf(),
{
    let mut result = Point::at_infinity();
    let mut base = p;
    let mut k = n;

    while k > 0
        invariant
            base.wf(),
            result.wf(),
            a.wf(),
            mul_defined(n as nat, p, infinity(), a) <==> mul_defined(
                k as nat,
                base,
                result,
                a,
            ),
            spec_mul_loop(k as nat, base, result, a) == spec_point_mul(n as nat, p, a),
        decreases k,
    {
        proof {
            assert(k & 1 == k % 2) by (bit_vector);
            assert(k >> 1 == k / 2) by (bit_vector);
        }
        if k & 1 == 1 {
            if !addition_defined(&result, &base) {
                return None;
            }
            result = crate::curve::point_add(result, base, a);
        }
        if !addition_defined(&base, &base) {
            return None;
        }
        base = crate::curve::point_add(base, base, a);
        k = k >> 1;
    }

    Some(result)
}

/// Tests whether the chord-and-tangent sum of two points is defined, that
/// is, whether the sum is not a doubling of an affine point with y == 0.
pub fn addition_defined(p: &Point, q: &Point) -> (r: bool)
    requires
        p.wf(),
        q.wf(),
    ensures
        r == add_defined(*p, *q),
{
    if p.is_at_infinity() || q.is_at_infinity() {
        return true;
    }
    let px = p.x.unwrap();
    let py = p.y.unwrap();
    let qx = q.x.unwrap();
    let qy = q.y.unwrap();
    let zero = F5x2::new(0, 0);
    !(px == qx && py == qy && py == zero)
}

/// Finds the full r-torsion subgroup of the curve y^2 = x^3 + a*x + b by
/// brute force: every affine point P with coordinates drawn from
/// field_elements for which r * P is the point at infinity, in scan order,
/// with the point at infinity itself appended last.
pub fn find_full_r_torsion_points(
    r: u8,
    a: F5x2,
    b: F5x2,
    field_elements: &Vec<F5x2>,
) -> (torsion: Vec<Point>)
    requires
        a.wf(),
        b.wf(),
        forall|k: int| 0 <= k < field_elements@.len() ==> (#[trigger] field_elements@[k]).wf(),
        forall|i: int, j: int|
            0 <= i < field_elements@.len() && 0 <= j < field_elements@.len() && on_curve(
                field_elements@[i],
                field_elements@[j],
                a,
                b,
            ) ==> mul_defined(
                r as nat,
                affine(field_elements@[i], field_elements@[j]),
                infinity(),
                a,
            ),
    ensures
        torsion@ == scan_points(
            field_elements@,
            field_elements@.len() as int,
            0,
            |x: F5x2, y: F5x2|
                on_curve(x, y, a, b) && spec_point_mul(r as nat, affine(x, y), a) == infinity(),
        ).push(infinity()),
        forall|k: int|
            0 <= k < torsion@.len() ==> #[trigger] spec_point_mul(r as nat, torsion@[k], a)
                == infinity(),
        forall|k: int| 0 <= k < torsion@.len() ==> (#[trigger] torsion@[k]).wf(),
{
    let keep = Ghost(
        |x: F5x2, y: F5x2|
            on_curve(x, y, a, b) && spec_point_mul(r as nat, affine(x, y), a) == infinity(),
    );
    let mut torsion: Vec<Point> = Vec::new();
    let n = field_elements.len();
    let mut i: usize = 0;
    while i < n
        invariant
            n == field_elements@.len(),
            a.wf(),
            b.wf(),
            forall|k: int| 0 <= k < field_elements@.len() ==> (#[trigger] field_elements@[k]).wf(),
            forall|i2: int, j2: int|
                0 <= i2 < field_elements@.len() && 0 <= j2 < field_elements@.len() && on_curve(
                    field_elements@[i2],
                    field_elements@[j2],
                    a,
                    b,
                ) ==> mul_defined(
                    r as nat,
                    affine(field_elements@[i2], field_elements@[j2]),
                    infinity(),
                    a,
                ),
            i <= n,
            torsion@ == scan_points(field_elements@, i as int, 0, keep@),
            keep@ == (|x: F5x2, y: F5x2|
                on_curve(x, y, a, b) && spec_point_mul(r as nat, affine(x, y), a) == infinity()),
            forall|k: int|
                0 <= k < torsion@.len() ==> #[trigger] spec_point_mul(r as nat, torsion@[k], a)
                    == infinity(),
            forall|k: int| 0 <= k < torsion@.len() ==> (#[trigger] torsion@[k]).wf(),
        decreases n - i,
    {
        let x = field_elements[i];
        let x_cubed = x.mul(x).mul(x);
        let rhs = x_cubed.add(a.mul(x)).add(b);
        let mut j: usize = 0;
        while j < n
            invariant
                n == field_elements@.len(),
                a.wf(),
                b.wf(),
                forall|k: int|
                    0 <= k < field_elements@.len() ==> (#[trigger] field_elements@[k]).wf(),
                forall|i2: int, j2: int|
                    0 <= i2 < field_elements@.len() && 0 <= j2 < field_elements@.len() && on_curve(
                        field_elements@[i2],
                        field_elements@[j2],
                        a,
                        b,
                    ) ==> mul_defined(
                        r as nat,
                        affine(field_elements@[i2], field_elements@[j2]),
                        infinity(),
                        a,
                    ),
                i < n,
                j <= n,
                x == field_elements@[i as int],
                rhs == curve_rhs(x, a, b),
                torsion@ == scan_points(field_elements@, i as int, j as int, keep@),
                keep@ == (|x: F5x2, y: F5x2|
                    on_curve(x, y, a, b) && spec_point_mul(r as nat, affine(x, y), a)
                        == infinity()),
                forall|k: int|
                    0 <= k < torsion@.len() ==> #[trigger] spec_point_mul(r as nat, torsion@[k], a)
                        == infinity(),
                forall|k: int| 0 <= k < torsion@.len() ==> (#[trigger] torsion@[k]).wf(),
            decreases n - j,
        {
            let y = field_elements[j];
            if y.mul(y) == rhs {
                let point = Point::new(Some(x), Some(y));
                proof {
                    assert(on_curve(field_elements@[i as int], field_elements@[j as int], a, b));
                    assert(mul_defined(
                        r as nat,
                        affine(field_elements@[i as int], field_elements@[j as int]),
                        infinity(),
                        a,
                    ));
                }
                let rp = point_mul(r, point, a);
                if rp.is_at_infinity() {
                    torsion.push(point);
                }
            }
            j = j + 1;
        }
        i = i + 1;
    }
    proof {
        lemma_mul_infinity(r as nat, a);
    }
    torsion.push(Point::at_infinity());
    torsion
}

} // verus!
