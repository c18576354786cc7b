//! Human-readable textual rendering of field elements and points.
//!
//! A field element renders as "0", "{a}", "{b}t" or "{a} + {b}t" according
//! to which coefficients are zero; a point renders as "Point at infinity"
//! or "({x}, {y})".

use crate::curve::Point;
use crate::field::F5x2;
use vstd::prelude::*;
use vstd::string::StringExecFns;

verus! {

/// The decimal digit character of a coefficient in [0, 5).
pub open spec fn digit_char(d: u8) -> char {
    if d == 0 {
        '0'
    } else if d == 1 {
        '1'
    } else if d == 2 {
        '2'
    } else if d == 3 {
        '3'
    } else {
        '4'
    }
}

/// The rendering of a canonical field element: "0" if both coefficients
/// are zero, "{a}" if only the t coefficient is zero, "{b}t" if only the
/// unit coefficient is zero, and "{a} + {b}t" otherwise.
pub open spec fn render_field(e: F5x2) -> Seq<char> {
    if e.a == 0 && e.b == 0 {
        seq!['0']
    } else if e.b == 0 {
        seq![digit_char(e.a)]
    } else if e.a == 0 {
        seq![digit_char(e.b), 't']
    } else {
        seq![digit_char(e.a), ' ', '+', ' ', digit_char(e.b), 't']
    }
}

/// The rendering of a point: "Point at infinity" for the identity, and
/// "({x}, {y})" for an affine point.
pub open spec fn render_point(p: Point) -> Seq<char> {
    if p.is_infinity() {
        "Point at infinity"@
    } else {
        seq!['('] + render_field(p.x->0) + seq![',', ' '] + render_field(p.y->0) + seq![')']
    }
}

/// The single-character decimal numeral of a coefficient in [0, 5).
fn digit_str(d: u8) -> (r: &'static str)
    requires
        d < 5,
    ensures
        r@ == seq![digit_char(d)],
{
    proof {
        reveal_strlit("0");
        reveal_strlit("1");
        reveal_strlit("2");
        reveal_strlit("3");
        reveal_strlit("4");
    }
    let r = if d == 0 {
        "0"
    } else if d == 1 {
        "1"
    } else if d == 2 {
        "2"
    } else if d == 3 {
        "3"
    } else {
        "4"
    };
    proof {
        assert(r@ =~= seq![digit_char(d)]);
    }
    r
}

impl F5x2 {
    /// Renders the element as text.
    pub fn to_text(&self) -> (r: String)
        requires
            self.wf(),
        ensures
            r@ == render_field(*self),
    {
        if self.a == 0 && self.b == 0 {
            String::from_str(digit_str(0))
        } else if self.b == 0 {
            String::from_str(digit_str(self.a))
        } else if self.a == 0 {
            let mut s = String::from_str(digit_str(self.b));
            s.append("t");
            proof {
                reveal_strlit("t");
                assert(s@ =~= render_field(*self));
            }
            s
        } else {
            let mut s = String::from_str(digit_str(self.a));
            s.append(" + ");
            s.append(digit_str(self.b));
            s.append("t");
            proof {
                reveal_strlit(" + ");
                reveal_strlit("t");
                assert(s@ =~= render_field(*self));
            }
            s
        }
    }
}

impl Point {
    /// Renders the point as text.
    pub fn to_text(&self) -> (r: String)
        requires
            self.wf(),
        ensures
            r@ == render_point(*self),
    {
        if self.is_at_infinity() {
            String::from_str("Point at infinity")
        } else {
            let mut s = String::from_str("(");
            let xt = self.x.unwrap().to_text();
            s.append(xt.as_str());
            s.append(", ");
            let yt = self.y.unwrap().to_text();
            s.append(yt.as_str());
            s.append(")");
            proof {
                reveal_strlit("(");
                reveal_strlit(", ");
                reveal_strlit(")");
                assert(s@ =~= render_point(*self));
            }
            s
        }
    }
}

} // verus!
