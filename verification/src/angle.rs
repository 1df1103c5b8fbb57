//! Exact angles, given by their cosine and sine.
//!
//! A rotation angle enters the library as the exact rational pair
//! `(cos/den, sin/den)` on the unit circle, so every matrix built from it is
//! exactly orthogonal.  A caller holding a radian measure derives such a pair
//! outside the library (for instance from a rational approximation `p/q` of
//! the half-angle tangent: `cos = q^2 - p^2`, `sin = 2*p*q`, `den = q^2 + p^2`).

use vstd::prelude::*;

verus! {

/// Exact value of an angle: the point `(c/den, s/den)` on the unit circle.
#[verifier::ext_equal]
pub ghost struct AngleM {
    pub c: int,
    pub s: int,
    pub den: int,
}

/// The pair lies exactly on the unit circle.
pub open spec fn angle_wf(a: AngleM) -> bool {
    &&& a.den > 0
    &&& a.c * a.c + a.s * a.s == a.den * a.den
}

/// An angle, held as its exact cosine and sine over one denominator.
#[derive(Clone, Copy, PartialEq, Eq, Structural, Debug)]
pub struct Angle {
    pub cos: i64,
    pub sin: i64,
    pub den: i64,
}

impl View for Angle {
    type V = AngleM;

    open spec fn view(&self) -> AngleM {
        AngleM { c: self.cos as int, s: self.sin as int, den: self.den as int }
    }
}

impl Angle {
    /// The angle whose cosine is `cos/den` and sine is `sin/den`; the pair
    /// must lie exactly on the unit circle.
    pub fn new(cos: i64, sin: i64, den: i64) -> (r: Angle)
        requires
            den > 0,
            cos * cos + sin * sin == den * den,
        ensures
            r@ == (AngleM { c: cos as int, s: sin as int, den: den as int }),
            angle_wf(r@),
    {
        Angle { cos, sin, den }
    }

    /// The zero angle.
    pub fn zero() -> (r: Angle)
        ensures
            r@ == (AngleM { c: 1, s: 0, den: 1 }),
            angle_wf(r@),
    {
        Angle { cos: 1, sin: 0, den: 1 }
    }
}

/// On the unit circle both coordinates are bounded by the denominator.
pub proof fn lemma_angle_bounds(a: AngleM)
    requires
        angle_wf(a),
    ensures
        -a.den <= a.c <= a.den,
        -a.den <= a.s <= a.den,
{
    assert(-a.den <= a.c <= a.den && -a.den <= a.s <= a.den) by (nonlinear_arith)
        requires
            a.den > 0,
            a.c * a.c + a.s * a.s == a.den * a.den,
    ;
}

} // verus!
