//! Dense 2×2 and 3×3 matrices with exact rational entries.
//!
//! A matrix holds integer numerators `mRC` (row `R`, column `C`) over one
//! positive denominator.  The orthogonality of a rotation matrix is the exact
//! equation system "columns are unit length and mutually perpendicular, and
//! the determinant is positive", stated over the numerators.

use vstd::prelude::*;

use crate::vector::{Vec2M, Vec3M, Vec2, Vec3, lemma_mul_bound};

verus! {

/// Exact value of a 2×2 matrix: entries `mRC/den`.
#[verifier::ext_equal]
pub ghost struct Mat2M {
    pub m00: int,
    pub m01: int,
    pub m10: int,
    pub m11: int,
    pub den: int,
}

pub open spec fn m2_id() -> Mat2M {
    Mat2M { m00: 1, m01: 0, m10: 0, m11: 1, den: 1 }
}

pub open spec fn m2_mul(a: Mat2M, b: Mat2M) -> Mat2M {
    Mat2M {
        m00: a.m00 * b.m00 + a.m01 * b.m10,
        m01: a.m00 * b.m01 + a.m01 * b.m11,
        m10: a.m10 * b.m00 + a.m11 * b.m10,
        m11: a.m10 * b.m01 + a.m11 * b.m11,
        den: a.den * b.den,
    }
}

pub open spec fn m2_mul_v(m: Mat2M, v: Vec2M) -> Vec2M {
    Vec2M {
        x: m.m00 * v.x + m.m01 * v.y,
        y: m.m10 * v.x + m.m11 * v.y,
        den: m.den * v.den,
    }
}

pub open spec fn m2_transpose(m: Mat2M) -> Mat2M {
    Mat2M { m00: m.m00, m01: m.m10, m10: m.m01, m11: m.m11, den: m.den }
}

pub open spec fn m2_det(m: Mat2M) -> int {
    m.m00 * m.m11 - m.m01 * m.m10
}

/// The matrix is an exact rotation: it has the shape
/// `[[cos, -sin], [sin, cos]]` with `cos^2 + sin^2 = den^2`.  The shape is
/// equivalent to "orthogonal with determinant `+1`"
/// (`lemma_rot2_orthogonal` derives those equations).
pub open spec fn rot2_wf(m: Mat2M) -> bool {
    &&& m.den > 0
    &&& m.m11 == m.m00
    &&& m.m01 == -m.m10
    &&& m.m00 * m.m00 + m.m10 * m.m10 == m.den * m.den
}

/// `a` and `b` denote the same matrix (cross-multiplied entries).
pub open spec fn mat2_eq(a: Mat2M, b: Mat2M) -> bool {
    &&& a.m00 * b.den == b.m00 * a.den
    &&& a.m01 * b.den == b.m01 * a.den
    &&& a.m10 * b.den == b.m10 * a.den
    &&& a.m11 * b.den == b.m11 * a.den
}

/// All entries lie in `[-b, b]` and the denominator in `(0, b]`.
pub open spec fn m2_bounded(m: Mat2M, b: int) -> bool {
    &&& -b <= m.m00 <= b
    &&& -b <= m.m01 <= b
    &&& -b <= m.m10 <= b
    &&& -b <= m.m11 <= b
    &&& 0 < m.den <= b
}

/// Each entry of `a` differs from the matching entry of `b` by at most
/// `en/ed`, stated cross-multiplied.
pub open spec fn mat2_close(a: Mat2M, b: Mat2M, en: int, ed: int) -> bool {
    &&& -(en * (a.den * b.den)) <= (a.m00 * b.den - b.m00 * a.den) * ed <= en * (a.den * b.den)
    &&& -(en * (a.den * b.den)) <= (a.m01 * b.den - b.m01 * a.den) * ed <= en * (a.den * b.den)
    &&& -(en * (a.den * b.den)) <= (a.m10 * b.den - b.m10 * a.den) * ed <= en * (a.den * b.den)
    &&& -(en * (a.den * b.den)) <= (a.m11 * b.den - b.m11 * a.den) * ed <= en * (a.den * b.den)
}

/// A 2×2 matrix with exact rational entries.
#[derive(Clone, Copy, PartialEq, Eq, Structural, Debug)]
pub struct Mat2 {
    pub m00: i64,
    pub m01: i64,
    pub m10: i64,
    pub m11: i64,
    pub den: i64,
}

impl View for Mat2 {
    type V = Mat2M;

    open spec fn view(&self) -> Mat2M {
        Mat2M {
            m00: self.m00 as int,
            m01: self.m01 as int,
            m10: self.m10 as int,
            m11: self.m11 as int,
            den: self.den as int,
        }
    }
}

impl Mat2 {
    pub fn identity() -> (r: Mat2)
        ensures
            r@ == m2_id(),
    {
        Mat2 { m00: 1, m01: 0, m10: 0, m11: 1, den: 1 }
    }

    /// Matrix product `self * other`.
    pub fn mul_m(&self, other: &Mat2) -> (r: Mat2)
        requires
            m2_bounded(self@, 0x4000_0000),
            m2_bounded(other@, 0x4000_0000),
        ensures
            r@ == m2_mul(self@, other@),
    {
        proof {
            lemma_mul_bound(self@.m00, other@.m00, 0x4000_0000, 0x4000_0000);
            lemma_mul_bound(self@.m01, other@.m10, 0x4000_0000, 0x4000_0000);
            lemma_mul_bound(self@.m00, other@.m01, 0x4000_0000, 0x4000_0000);
            lemma_mul_bound(self@.m01, other@.m11, 0x4000_0000, 0x4000_0000);
            lemma_mul_bound(self@.m10, other@.m00, 0x4000_0000, 0x4000_0000);
            lemma_mul_bound(self@.m11, other@.m10, 0x4000_0000, 0x4000_0000);
            lemma_mul_bound(self@.m10, other@.m01, 0x4000_0000, 0x4000_0000);
            lemma_mul_bound(self@.m11, other@.m11, 0x4000_0000, 0x4000_0000);
            lemma_mul_bound(self@.den, other@.den, 0x4000_0000, 0x4000_0000);
        }
        let m00: i128 = (self.m00 as i128) * (other.m00 as i128) + (self.m01 as i128) * (other.m10 as i128);
        let m01: i128 = (self.m00 as i128) * (other.m01 as i128) + (self.m01 as i128) * (other.m11 as i128);
        let m10: i128 = (self.m10 as i128) * (other.m00 as i128) + (self.m11 as i128) * (other.m10 as i128);
        let m11: i128 = (self.m10 as i128) * (other.m01 as i128) + (self.m11 as i128) * (other.m11 as i128);
        Mat2 {
            m00: m00 as i64,
            m01: m01 as i64,
            m10: m10 as i64,
            m11: m11 as i64,
            den: self.den * other.den,
        }
    }

    /// Matrix–vector product `self * v`.
    pub fn mul_v(&self, v: &Vec2) -> (r: Vec2)
        requires
            m2_bounded(self@, 0x4000_0000),
            crate::vector::vec2_bounded(v@, 0x4000_0000),
        ensures
            r@ == m2_mul_v(self@, v@),
    {
        proof {
            lemma_mul_bound(self@.m00, v@.x, 0x4000_0000, 0x4000_0000);
            lemma_mul_bound(self@.m01, v@.y, 0x4000_0000, 0x4000_0000);
            lemma_mul_bound(self@.m10, v@.x, 0x4000_0000, 0x4000_0000);
            lemma_mul_bound(self@.m11, v@.y, 0x4000_0000, 0x4000_0000);
            lemma_mul_bound(self@.den, v@.den, 0x4000_0000, 0x4000_0000);
        }
        let x: i128 = (self.m00 as i128) * (v.x as i128) + (self.m01 as i128) * (v.y as i128);
        let y: i128 = (self.m10 as i128) * (v.x as i128) + (self.m11 as i128) * (v.y as i128);
        Vec2 { x: x as i64, y: y as i64, den: self.den * v.den }
    }

    pub fn transpose(&self) -> (r: Mat2)
        ensures
            r@ == m2_transpose(self@),
            r == (Mat2 { m00: self.m00, m01: self.m10, m10: self.m01, m11: self.m11, den: self.den }),
    {
        Mat2 { m00: self.m00, m01: self.m10, m10: self.m01, m11: self.m11, den: self.den }
    }

    /// Whether the two matrices denote exactly the same rational matrix.
    pub fn approx_eq(&self, other: &Mat2) -> (r: bool)
        ensures
            r == mat2_eq(self@, other@),
    {
        proof {
            lemma_mul_bound(self@.m00, other@.den, 0x8000_0000_0000_0000, 0x8000_0000_0000_0000);
            lemma_mul_bound(other@.m00, self@.den, 0x8000_0000_0000_0000, 0x8000_0000_0000_0000);
            lemma_mul_bound(self@.m01, other@.den, 0x8000_0000_0000_0000, 0x8000_0000_0000_0000);
            lemma_mul_bound(other@.m01, self@.den, 0x8000_0000_0000_0000, 0x8000_0000_0000_0000);
            lemma_mul_bound(self@.m10, other@.den, 0x8000_0000_0000_0000, 0x8000_0000_0000_0000);
            lemma_mul_bound(other@.m10, self@.den, 0x8000_0000_0000_0000, 0x8000_0000_0000_0000);
            lemma_mul_bound(self@.m11, other@.den, 0x8000_0000_0000_0000, 0x8000_0000_0000_0000);
            lemma_mul_bound(other@.m11, self@.den, 0x8000_0000_0000_0000, 0x8000_0000_0000_0000);
        }
        let da = self.den as i128;
        let db = other.den as i128;
        (self.m00 as i128) * db == (other.m00 as i128) * da
            && (self.m01 as i128) * db == (other.m01 as i128) * da
            && (self.m10 as i128) * db == (other.m10 as i128) * da
            && (self.m11 as i128) * db == (other.m11 as i128) * da
    }

    /// Whether every entry of the two matrices differs by at most `en/ed`.
    pub fn approx_eq_eps(&self, other: &Mat2, en: i64, ed: i64) -> (r: bool)
        requires
            m2_bounded(self@, 0x4000_0000),
            m2_bounded(other@, 0x4000_0000),
            0 <= en <= 0x4000_0000,
            0 < ed <= 0x4000_0000,
        ensures
            r == mat2_close(self@, other@, en as int, ed as int),
    {
        proof {
            lemma_mul_bound(self@.m00, other@.den, 0x4000_0000, 0x4000_0000);
            lemma_mul_bound(other@.m00, self@.den, 0x4000_0000, 0x4000_0000);
            lemma_mul_bound(self@.m01, other@.den, 0x4000_0000, 0x4000_0000);
            lemma_mul_bound(other@.m01, self@.den, 0x4000_0000, 0x4000_0000);
            lemma_mul_bound(self@.m10, other@.den, 0x4000_0000, 0x4000_0000);
            lemma_mul_bound(other@.m10, self@.den, 0x4000_0000, 0x4000_0000);
            lemma_mul_bound(self@.m11, other@.den, 0x4000_0000, 0x4000_0000);
            lemma_mul_bound(other@.m11, self@.den, 0x4000_0000, 0x4000_0000);
            lemma_mul_bound(self@.m00 * other@.den - other@.m00 * self@.den, ed as int,
                0x4000_0000_0000_0000, 0x4000_0000);
            lemma_mul_bound(self@.m01 * other@.den - other@.m01 * self@.den, ed as int,
                0x4000_0000_0000_0000, 0x4000_0000);
            lemma_mul_bound(self@.m10 * other@.den - other@.m10 * self@.den, ed as int,
                0x4000_0000_0000_0000, 0x4000_0000);
            lemma_mul_bound(self@.m11 * other@.den - other@.m11 * self@.den, ed as int,
                0x4000_0000_0000_0000, 0x4000_0000);
            lemma_mul_bound(self@.den, other@.den, 0x4000_0000, 0x4000_0000);
            lemma_mul_bound(en as int, self@.den * other@.den, 0x4000_0000,
                0x1000_0000_0000_0000);
        }
        let da = self.den as i128;
        let db = other.den as i128;
        let bound: i128 = (en as i128) * (da * db);
        let d00: i128 = ((self.m00 as i128) * db - (other.m00 as i128) * da) * (ed as i128);
        let d01: i128 = ((self.m01 as i128) * db - (other.m01 as i128) * da) * (ed as i128);
        let d10: i128 = ((self.m10 as i128) * db - (other.m10 as i128) * da) * (ed as i128);
        let d11: i128 = ((self.m11 as i128) * db - (other.m11 as i128) * da) * (ed as i128);
        -bound <= d00 && d00 <= bound && -bound <= d01 && d01 <= bound && -bound <= d10 && d10
            <= bound && -bound <= d11 && d11 <= bound
    }
}

/// The identity matrix is a left and right unit for multiplication.
pub proof fn lemma_m2_mul_id(m: Mat2M)
    ensures
        m2_mul(m2_id(), m) == m,
        m2_mul(m, m2_id()) == m,
{
    assert(m2_mul(m2_id(), m) =~= m);
    assert(m2_mul(m, m2_id()) =~= m);
}

/// The identity matrix maps every vector to itself.
pub proof fn lemma_m2_mul_v_id(v: Vec2M)
    ensures
        m2_mul_v(m2_id(), v) == v,
{
    assert(m2_mul_v(m2_id(), v).x == 1 * v.x + 0 * v.y);
    assert(1 * v.x + 0 * v.y == v.x) by (nonlinear_arith);
    assert(m2_mul_v(m2_id(), v).y == 0 * v.x + 1 * v.y);
    assert(0 * v.x + 1 * v.y == v.y) by (nonlinear_arith);
    assert(m2_mul_v(m2_id(), v).den == 1 * v.den);
    assert(1 * v.den == v.den) by (nonlinear_arith);
    assert(m2_mul_v(m2_id(), v) =~= v);
}

/// A rotation matrix is orthogonal with determinant `+den^2`: both columns
/// and both rows are unit length and mutually perpendicular.
pub proof fn lemma_rot2_orthogonal(m: Mat2M)
    requires
        rot2_wf(m),
    ensures
        m.m00 * m.m00 + m.m10 * m.m10 == m.den * m.den,
        m.m01 * m.m01 + m.m11 * m.m11 == m.den * m.den,
        m.m00 * m.m01 + m.m10 * m.m11 == 0,
        m.m00 * m.m00 + m.m01 * m.m01 == m.den * m.den,
        m.m10 * m.m10 + m.m11 * m.m11 == m.den * m.den,
        m.m00 * m.m10 + m.m01 * m.m11 == 0,
        m2_det(m) == m.den * m.den,
{
    assert(m.m01 * m.m01 + m.m11 * m.m11 == m.den * m.den && m.m00 * m.m01 + m.m10 * m.m11 == 0
        && m.m00 * m.m00 + m.m01 * m.m01 == m.den * m.den && m.m10 * m.m10 + m.m11 * m.m11
        == m.den * m.den && m.m00 * m.m10 + m.m01 * m.m11 == 0 && m.m00 * m.m11 - m.m01 * m.m10
        == m.den * m.den) by (nonlinear_arith)
        requires
            m.m11 == m.m00,
            m.m01 == -m.m10,
            m.m00 * m.m00 + m.m10 * m.m10 == m.den * m.den,
    ;
}

/// Every entry of a rotation matrix is bounded by its denominator.
pub proof fn lemma_rot2_entry_bounds(m: Mat2M)
    requires
        rot2_wf(m),
    ensures
        m2_bounded(m, m.den),
{
    assert(-m.den <= m.m00 <= m.den && -m.den <= m.m10 <= m.den) by (nonlinear_arith)
        requires
            m.den > 0,
            m.m00 * m.m00 + m.m10 * m.m10 == m.den * m.den,
    ;
}

/// The rotation shape is preserved by multiplication.
pub proof fn lemma_rot2_mul(a: Mat2M, b: Mat2M)
    requires
        rot2_wf(a),
        rot2_wf(b),
    ensures
        rot2_wf(m2_mul(a, b)),
{
    assert(a.den * b.den > 0) by (nonlinear_arith)
        requires
            a.den > 0,
            b.den > 0,
    ;
    assert(a.m10 * b.m01 + a.m11 * b.m11 == a.m00 * b.m00 + a.m01 * b.m10 && a.m00 * b.m01 + a.m01
        * b.m11 == -(a.m10 * b.m00 + a.m11 * b.m10)) by (nonlinear_arith)
        requires
            a.m11 == a.m00,
            a.m01 == -a.m10,
            b.m11 == b.m00,
            b.m01 == -b.m10,
    ;
    assert(a.m01 * b.m10 == -(a.m10 * b.m10)) by (nonlinear_arith)
        requires
            a.m01 == -a.m10,
    ;
    lemma_two_squares(a.m00 * b.m00, a.m10 * b.m10, a.m10 * b.m00, a.m00 * b.m10);
    assert((a.m00 * b.m00) * (a.m10 * b.m10) == (a.m10 * b.m00) * (a.m00 * b.m10))
        by (nonlinear_arith);
    assert((a.m00 * b.m00) * (a.m00 * b.m00) == (a.m00 * a.m00) * (b.m00 * b.m00))
        by (nonlinear_arith);
    assert((a.m10 * b.m10) * (a.m10 * b.m10) == (a.m10 * a.m10) * (b.m10 * b.m10))
        by (nonlinear_arith);
    assert((a.m10 * b.m00) * (a.m10 * b.m00) == (a.m10 * a.m10) * (b.m00 * b.m00))
        by (nonlinear_arith);
    assert((a.m00 * b.m10) * (a.m00 * b.m10) == (a.m00 * a.m00) * (b.m10 * b.m10))
        by (nonlinear_arith);
    lemma_four_products(a.m00 * a.m00, a.m10 * a.m10, b.m00 * b.m00, b.m10 * b.m10);
    assert((a.den * a.den) * (b.den * b.den) == (a.den * b.den) * (a.den * b.den))
        by (nonlinear_arith);
}

/// The transpose of a rotation matrix is a rotation matrix (its inverse).
pub proof fn lemma_rot2_transpose(m: Mat2M)
    requires
        rot2_wf(m),
    ensures
        rot2_wf(m2_transpose(m)),
{
    assert(m.m00 * m.m00 + m.m01 * m.m01 == m.den * m.den) by (nonlinear_arith)
        requires
            m.m01 == -m.m10,
            m.m00 * m.m00 + m.m10 * m.m10 == m.den * m.den,
    ;
}


/// `(p - q)^2 + (r + s)^2` expanded into monomials.
proof fn lemma_two_squares(p: int, q: int, r: int, s: int)
    ensures
        (p - q) * (p - q) + (r + s) * (r + s) == p * p + q * q + r * r + s * s - 2 * (p * q) + 2
            * (r * s),
{
    assert((p - q) * (p - q) + (r + s) * (r + s) == p * p + q * q + r * r + s * s - 2 * (p * q) + 2
        * (r * s)) by (nonlinear_arith);
}

/// Four mixed products regrouped as a product of two sums.
proof fn lemma_four_products(u1: int, u2: int, v1: int, v2: int)
    ensures
        u1 * v1 + u2 * v2 + u2 * v1 + u1 * v2 == (u1 + u2) * (v1 + v2),
{
    assert(u1 * v1 + u2 * v2 + u2 * v1 + u1 * v2 == (u1 + u2) * (v1 + v2)) by (nonlinear_arith);
}

/// Multiplication distributes over a sum on the left.
proof fn lemma_dist2(u: int, v: int, x: int)
    ensures
        (u + v) * x == u * x + v * x,
{
    assert((u + v) * x == u * x + v * x) by (nonlinear_arith);
}

/// Multiplication distributes over a sum on the right.
proof fn lemma_dist_left(a: int, u: int, v: int)
    ensures
        a * (u + v) == a * u + a * v,
{
    assert(a * (u + v) == a * u + a * v) by (nonlinear_arith);
}

/// Multiplication is associative.
proof fn lemma_assoc3(x: int, y: int, z: int)
    ensures
        (x * y) * z == x * (y * z),
{
    assert((x * y) * z == x * (y * z)) by (nonlinear_arith);
}

/// Scaling a numerator or the denominator by the same factor is invisible
/// under cross-multiplied equality.
pub proof fn lemma_scale_swap(q: int, x: int, w: int)
    ensures
        (q * x) * w == x * (q * w),
{
    assert((q * x) * w == x * (q * w)) by (nonlinear_arith);
}

/// Matrix multiplication is associative.
pub proof fn lemma_m2_mul_assoc(a: Mat2M, b: Mat2M, c: Mat2M)
    ensures
        m2_mul(m2_mul(a, b), c) == m2_mul(a, m2_mul(b, c)),
{
    lemma_dist2(a.m00 * b.m00, a.m01 * b.m10, c.m00);
    lemma_dist2(a.m00 * b.m01, a.m01 * b.m11, c.m10);
    lemma_assoc3(a.m00, b.m00, c.m00);
    lemma_assoc3(a.m01, b.m10, c.m00);
    lemma_assoc3(a.m00, b.m01, c.m10);
    lemma_assoc3(a.m01, b.m11, c.m10);
    lemma_dist_left(a.m00, b.m00 * c.m00, b.m01 * c.m10);
    lemma_dist_left(a.m01, b.m10 * c.m00, b.m11 * c.m10);
    lemma_dist2(a.m00 * b.m00, a.m01 * b.m10, c.m01);
    lemma_dist2(a.m00 * b.m01, a.m01 * b.m11, c.m11);
    lemma_assoc3(a.m00, b.m00, c.m01);
    lemma_assoc3(a.m01, b.m10, c.m01);
    lemma_assoc3(a.m00, b.m01, c.m11);
    lemma_assoc3(a.m01, b.m11, c.m11);
    lemma_dist_left(a.m00, b.m00 * c.m01, b.m01 * c.m11);
    lemma_dist_left(a.m01, b.m10 * c.m01, b.m11 * c.m11);
    lemma_dist2(a.m10 * b.m00, a.m11 * b.m10, c.m00);
    lemma_dist2(a.m10 * b.m01, a.m11 * b.m11, c.m10);
    lemma_assoc3(a.m10, b.m00, c.m00);
    lemma_assoc3(a.m11, b.m10, c.m00);
    lemma_assoc3(a.m10, b.m01, c.m10);
    lemma_assoc3(a.m11, b.m11, c.m10);
    lemma_dist_left(a.m10, b.m00 * c.m00, b.m01 * c.m10);
    lemma_dist_left(a.m11, b.m10 * c.m00, b.m11 * c.m10);
    lemma_dist2(a.m10 * b.m00, a.m11 * b.m10, c.m01);
    lemma_dist2(a.m10 * b.m01, a.m11 * b.m11, c.m11);
    lemma_assoc3(a.m10, b.m00, c.m01);
    lemma_assoc3(a.m11, b.m10, c.m01);
    lemma_assoc3(a.m10, b.m01, c.m11);
    lemma_assoc3(a.m11, b.m11, c.m11);
    lemma_dist_left(a.m10, b.m00 * c.m01, b.m01 * c.m11);
    lemma_dist_left(a.m11, b.m10 * c.m01, b.m11 * c.m11);
    lemma_assoc3(a.den, b.den, c.den);
}

/// Applying a product applies the right factor first.
pub proof fn lemma_m2_mul_v_assoc(a: Mat2M, b: Mat2M, v: Vec2M)
    ensures
        m2_mul_v(m2_mul(a, b), v) == m2_mul_v(a, m2_mul_v(b, v)),
{
    lemma_dist2(a.m00 * b.m00, a.m01 * b.m10, v.x);
    lemma_dist2(a.m00 * b.m01, a.m01 * b.m11, v.y);
    lemma_assoc3(a.m00, b.m00, v.x);
    lemma_assoc3(a.m01, b.m10, v.x);
    lemma_assoc3(a.m00, b.m01, v.y);
    lemma_assoc3(a.m01, b.m11, v.y);
    lemma_dist_left(a.m00, b.m00 * v.x, b.m01 * v.y);
    lemma_dist_left(a.m01, b.m10 * v.x, b.m11 * v.y);
    lemma_dist2(a.m10 * b.m00, a.m11 * b.m10, v.x);
    lemma_dist2(a.m10 * b.m01, a.m11 * b.m11, v.y);
    lemma_assoc3(a.m10, b.m00, v.x);
    lemma_assoc3(a.m11, b.m10, v.x);
    lemma_assoc3(a.m10, b.m01, v.y);
    lemma_assoc3(a.m11, b.m11, v.y);
    lemma_dist_left(a.m10, b.m00 * v.x, b.m01 * v.y);
    lemma_dist_left(a.m11, b.m10 * v.x, b.m11 * v.y);
    lemma_assoc3(a.den, b.den, v.den);
}

/// The transpose is a two-sided inverse: both products are the identity
/// scaled by the squared denominator.
pub proof fn lemma_rot2_inverse(m: Mat2M)
    requires
        rot2_wf(m),
    ensures
        m2_mul(m2_transpose(m), m) == (Mat2M {
            m00: m.den * m.den,
            m01: 0,
            m10: 0,
            m11: m.den * m.den,
            den: m.den * m.den,
        }),
        m2_mul(m, m2_transpose(m)) == (Mat2M {
            m00: m.den * m.den,
            m01: 0,
            m10: 0,
            m11: m.den * m.den,
            den: m.den * m.den,
        }),
{
    assert(m.m00 * m.m01 + m.m10 * m.m11 == 0 && m.m01 * m.m00 + m.m11 * m.m10 == 0 && m.m01
        * m.m01 + m.m11 * m.m11 == m.den * m.den && m.m00 * m.m10 + m.m01 * m.m00 == 0 && m.m10
        * m.m00 + m.m00 * m.m01 == 0 && m.m10 * m.m10 + m.m00 * m.m00 == m.den * m.den && m.m00
        * m.m00 + m.m01 * m.m01 == m.den * m.den) by (nonlinear_arith)
        requires
            m.m11 == m.m00,
            m.m01 == -m.m10,
            m.m00 * m.m00 + m.m10 * m.m10 == m.den * m.den,
    ;
}


/// Exact value of a 3×3 matrix: entries `mRC/den`.
#[verifier::ext_equal]
pub ghost struct Mat3M {
    pub m00: int,
    pub m01: int,
    pub m02: int,
    pub m10: int,
    pub m11: int,
    pub m12: int,
    pub m20: int,
    pub m21: int,
    pub m22: int,
    pub den: int,
}

pub open spec fn m3_id() -> Mat3M {
    Mat3M { m00: 1, m01: 0, m02: 0, m10: 0, m11: 1, m12: 0, m20: 0, m21: 0, m22: 1, den: 1 }
}

pub open spec fn m3_mul(a: Mat3M, b: Mat3M) -> Mat3M {
    Mat3M {
        m00: a.m00 * b.m00 + a.m01 * b.m10 + a.m02 * b.m20,
        m01: a.m00 * b.m01 + a.m01 * b.m11 + a.m02 * b.m21,
        m02: a.m00 * b.m02 + a.m01 * b.m12 + a.m02 * b.m22,
        m10: a.m10 * b.m00 + a.m11 * b.m10 + a.m12 * b.m20,
        m11: a.m10 * b.m01 + a.m11 * b.m11 + a.m12 * b.m21,
        m12: a.m10 * b.m02 + a.m11 * b.m12 + a.m12 * b.m22,
        m20: a.m20 * b.m00 + a.m21 * b.m10 + a.m22 * b.m20,
        m21: a.m20 * b.m01 + a.m21 * b.m11 + a.m22 * b.m21,
        m22: a.m20 * b.m02 + a.m21 * b.m12 + a.m22 * b.m22,
        den: a.den * b.den,
    }
}

pub open spec fn m3_mul_v(m: Mat3M, v: Vec3M) -> Vec3M {
    Vec3M {
        x: m.m00 * v.x + m.m01 * v.y + m.m02 * v.z,
        y: m.m10 * v.x + m.m11 * v.y + m.m12 * v.z,
        z: m.m20 * v.x + m.m21 * v.y + m.m22 * v.z,
        den: m.den * v.den,
    }
}

pub open spec fn m3_transpose(m: Mat3M) -> Mat3M {
    Mat3M {
        m00: m.m00,
        m01: m.m10,
        m02: m.m20,
        m10: m.m01,
        m11: m.m11,
        m12: m.m21,
        m20: m.m02,
        m21: m.m12,
        m22: m.m22,
        den: m.den,
    }
}

pub open spec fn m3_det(m: Mat3M) -> int {
    m.m00 * (m.m11 * m.m22 - m.m12 * m.m21) - m.m01 * (m.m10 * m.m22 - m.m12 * m.m20) + m.m02 * (
    m.m10 * m.m21 - m.m11 * m.m20)
}

/// The matrix is exactly orthogonal: its columns, and equally its rows, are
/// unit length and mutually perpendicular.
pub open spec fn rot3_wf(m: Mat3M) -> bool {
    &&& m.den > 0
    &&& m.m00 * m.m00 + m.m10 * m.m10 + m.m20 * m.m20 == m.den * m.den
    &&& m.m01 * m.m01 + m.m11 * m.m11 + m.m21 * m.m21 == m.den * m.den
    &&& m.m02 * m.m02 + m.m12 * m.m12 + m.m22 * m.m22 == m.den * m.den
    &&& m.m00 * m.m01 + m.m10 * m.m11 + m.m20 * m.m21 == 0
    &&& m.m00 * m.m02 + m.m10 * m.m12 + m.m20 * m.m22 == 0
    &&& m.m01 * m.m02 + m.m11 * m.m12 + m.m21 * m.m22 == 0
    &&& m.m00 * m.m00 + m.m01 * m.m01 + m.m02 * m.m02 == m.den * m.den
    &&& m.m10 * m.m10 + m.m11 * m.m11 + m.m12 * m.m12 == m.den * m.den
    &&& m.m20 * m.m20 + m.m21 * m.m21 + m.m22 * m.m22 == m.den * m.den
    &&& m.m00 * m.m10 + m.m01 * m.m11 + m.m02 * m.m12 == 0
    &&& m.m00 * m.m20 + m.m01 * m.m21 + m.m02 * m.m22 == 0
    &&& m.m10 * m.m20 + m.m11 * m.m21 + m.m12 * m.m22 == 0
}

/// `a` and `b` denote the same matrix (cross-multiplied entries).
pub open spec fn mat3_eq(a: Mat3M, b: Mat3M) -> bool {
    &&& a.m00 * b.den == b.m00 * a.den
    &&& a.m01 * b.den == b.m01 * a.den
    &&& a.m02 * b.den == b.m02 * a.den
    &&& a.m10 * b.den == b.m10 * a.den
    &&& a.m11 * b.den == b.m11 * a.den
    &&& a.m12 * b.den == b.m12 * a.den
    &&& a.m20 * b.den == b.m20 * a.den
    &&& a.m21 * b.den == b.m21 * a.den
    &&& a.m22 * b.den == b.m22 * a.den
}

/// All entries lie in `[-b, b]` and the denominator in `(0, b]`.
pub open spec fn m3_bounded(m: Mat3M, b: int) -> bool {
    &&& -b <= m.m00 <= b
    &&& -b <= m.m01 <= b
    &&& -b <= m.m02 <= b
    &&& -b <= m.m10 <= b
    &&& -b <= m.m11 <= b
    &&& -b <= m.m12 <= b
    &&& -b <= m.m20 <= b
    &&& -b <= m.m21 <= b
    &&& -b <= m.m22 <= b
    &&& 0 < m.den <= b
}

/// Each entry of `a` differs from the matching entry of `b` by at most
/// `en/ed`, stated cross-multiplied.
pub open spec fn mat3_close(a: Mat3M, b: Mat3M, en: int, ed: int) -> bool {
    &&& -(en * (a.den * b.den)) <= (a.m00 * b.den - b.m00 * a.den) * ed <= en * (a.den * b.den)
    &&& -(en * (a.den * b.den)) <= (a.m01 * b.den - b.m01 * a.den) * ed <= en * (a.den * b.den)
    &&& -(en * (a.den * b.den)) <= (a.m02 * b.den - b.m02 * a.den) * ed <= en * (a.den * b.den)
    &&& -(en * (a.den * b.den)) <= (a.m10 * b.den - b.m10 * a.den) * ed <= en * (a.den * b.den)
    &&& -(en * (a.den * b.den)) <= (a.m11 * b.den - b.m11 * a.den) * ed <= en * (a.den * b.den)
    &&& -(en * (a.den * b.den)) <= (a.m12 * b.den - b.m12 * a.den) * ed <= en * (a.den * b.den)
    &&& -(en * (a.den * b.den)) <= (a.m20 * b.den - b.m20 * a.den) * ed <= en * (a.den * b.den)
    &&& -(en * (a.den * b.den)) <= (a.m21 * b.den - b.m21 * a.den) * ed <= en * (a.den * b.den)
    &&& -(en * (a.den * b.den)) <= (a.m22 * b.den - b.m22 * a.den) * ed <= en * (a.den * b.den)
}

/// A 3×3 matrix with exact rational entries.
#[derive(Clone, Copy, PartialEq, Eq, Structural, Debug)]
pub struct Mat3 {
    pub m00: i64,
    pub m01: i64,
    pub m02: i64,
    pub m10: i64,
    pub m11: i64,
    pub m12: i64,
    pub m20: i64,
    pub m21: i64,
    pub m22: i64,
    pub den: i64,
}

impl View for Mat3 {
    type V = Mat3M;

    open spec fn view(&self) -> Mat3M {
        Mat3M {
            m00: self.m00 as int,
            m01: self.m01 as int,
            m02: self.m02 as int,
            m10: self.m10 as int,
            m11: self.m11 as int,
            m12: self.m12 as int,
            m20: self.m20 as int,
            m21: self.m21 as int,
            m22: self.m22 as int,
            den: self.den as int,
        }
    }
}

impl Mat3 {
    pub fn identity() -> (r: Mat3)
        ensures
            r@ == m3_id(),
    {
        Mat3 { m00: 1, m01: 0, m02: 0, m10: 0, m11: 1, m12: 0, m20: 0, m21: 0, m22: 1, den: 1 }
    }

    /// Matrix product `self * other`.
    pub fn mul_m(&self, other: &Mat3) -> (r: Mat3)
        requires
            m3_bounded(self@, 0x4000_0000),
            m3_bounded(other@, 0x4000_0000),
        ensures
            r@ == m3_mul(self@, other@),
    {
        proof {
            lemma_mul_bound(self@.m00, other@.m00, 0x4000_0000, 0x4000_0000);
            lemma_mul_bound(self@.m01, other@.m10, 0x4000_0000, 0x4000_0000);
            lemma_mul_bound(self@.m02, other@.m20, 0x4000_0000, 0x4000_0000);
            lemma_mul_bound(self@.m00, other@.m01, 0x4000_0000, 0x4000_0000);
            lemma_mul_bound(self@.m01, other@.m11, 0x4000_0000, 0x4000_0000);
            lemma_mul_bound(self@.m02, other@.m21, 0x4000_0000, 0x4000_0000);
            lemma_mul_bound(self@.m00, other@.m02, 0x4000_0000, 0x4000_0000);
            lemma_mul_bound(self@.m01, other@.m12, 0x4000_0000, 0x4000_0000);
            lemma_mul_bound(self@.m02, other@.m22, 0x4000_0000, 0x4000_0000);
            lemma_mul_bound(self@.m10, other@.m00, 0x4000_0000, 0x4000_0000);
            lemma_mul_bound(self@.m11, other@.m10, 0x4000_0000, 0x4000_0000);
            lemma_mul_bound(self@.m12, other@.m20, 0x4000_0000, 0x4000_0000);
            lemma_mul_bound(self@.m10, other@.m01, 0x4000_0000, 0x4000_0000);
            lemma_mul_bound(self@.m11, other@.m11, 0x4000_0000, 0x4000_0000);
            lemma_mul_bound(self@.m12, other@.m21, 0x4000_0000, 0x4000_0000);
            lemma_mul_bound(self@.m10, other@.m02, 0x4000_0000, 0x4000_0000);
            lemma_mul_bound(self@.m11, other@.m12, 0x4000_0000, 0x4000_0000);
            lemma_mul_bound(self@.m12, other@.m22, 0x4000_0000, 0x4000_0000);
            lemma_mul_bound(self@.m20, other@.m00, 0x4000_0000, 0x4000_0000);
            lemma_mul_bound(self@.m21, other@.m10, 0x4000_0000, 0x4000_0000);
            lemma_mul_bound(self@.m22, other@.m20, 0x4000_0000, 0x4000_0000);
            lemma_mul_bound(self@.m20, other@.m01, 0x4000_0000, 0x4000_0000);
            lemma_mul_bound(self@.m21, other@.m11, 0x4000_0000, 0x4000_0000);
            lemma_mul_bound(self@.m22, other@.m21, 0x4000_0000, 0x4000_0000);
            lemma_mul_bound(self@.m20, other@.m02, 0x4000_0000, 0x4000_0000);
            lemma_mul_bound(self@.m21, other@.m12, 0x4000_0000, 0x4000_0000);
            lemma_mul_bound(self@.m22, other@.m22, 0x4000_0000, 0x4000_0000);
            lemma_mul_bound(self@.den, other@.den, 0x4000_0000, 0x4000_0000);
        }
        let m00: i128 = (self.m00 as i128) * (other.m00 as i128) + (self.m01 as i128) * (other.m10 as i128) + (self.m02 as i128) * (other.m20 as i128);
        let m01: i128 = (self.m00 as i128) * (other.m01 as i128) + (self.m01 as i128) * (other.m11 as i128) + (self.m02 as i128) * (other.m21 as i128);
        let m02: i128 = (self.m00 as i128) * (other.m02 as i128) + (self.m01 as i128) * (other.m12 as i128) + (self.m02 as i128) * (other.m22 as i128);
        let m10: i128 = (self.m10 as i128) * (other.m00 as i128) + (self.m11 as i128) * (other.m10 as i128) + (self.m12 as i128) * (other.m20 as i128);
        let m11: i128 = (self.m10 as i128) * (other.m01 as i128) + (self.m11 as i128) * (other.m11 as i128) + (self.m12 as i128) * (other.m21 as i128);
        let m12: i128 = (self.m10 as i128) * (other.m02 as i128) + (self.m11 as i128) * (other.m12 as i128) + (self.m12 as i128) * (other.m22 as i128);
        let m20: i128 = (self.m20 as i128) * (other.m00 as i128) + (self.m21 as i128) * (other.m10 as i128) + (self.m22 as i128) * (other.m20 as i128);
        let m21: i128 = (self.m20 as i128) * (other.m01 as i128) + (self.m21 as i128) * (other.m11 as i128) + (self.m22 as i128) * (other.m21 as i128);
        let m22: i128 = (self.m20 as i128) * (other.m02 as i128) + (self.m21 as i128) * (other.m12 as i128) + (self.m22 as i128) * (other.m22 as i128);
        Mat3 {
            m00: m00 as i64,
            m01: m01 as i64,
            m02: m02 as i64,
            m10: m10 as i64,
            m11: m11 as i64,
            m12: m12 as i64,
            m20: m20 as i64,
            m21: m21 as i64,
            m22: m22 as i64,
            den: self.den * other.den,
        }
    }

    /// Matrix–vector product `self * v`.
    pub fn mul_v(&self, v: &Vec3) -> (r: Vec3)
        requires
            m3_bounded(self@, 0x4000_0000),
            crate::vector::vec3_bounded(v@, 0x4000_0000),
        ensures
            r@ == m3_mul_v(self@, v@),
    {
        proof {
            lemma_mul_bound(self@.m00, v@.x, 0x4000_0000, 0x4000_0000);
            lemma_mul_bound(self@.m01, v@.y, 0x4000_0000, 0x4000_0000);
            lemma_mul_bound(self@.m02, v@.z, 0x4000_0000, 0x4000_0000);
            lemma_mul_bound(self@.m10, v@.x, 0x4000_0000, 0x4000_0000);
            lemma_mul_bound(self@.m11, v@.y, 0x4000_0000, 0x4000_0000);
            lemma_mul_bound(self@.m12, v@.z, 0x4000_0000, 0x4000_0000);
            lemma_mul_bound(self@.m20, v@.x, 0x4000_0000, 0x4000_0000);
            lemma_mul_bound(self@.m21, v@.y, 0x4000_0000, 0x4000_0000);
            lemma_mul_bound(self@.m22, v@.z, 0x4000_0000, 0x4000_0000);
            lemma_mul_bound(self@.den, v@.den, 0x4000_0000, 0x4000_0000);
        }
        let x: i128 = (self.m00 as i128) * (v.x as i128) + (self.m01 as i128) * (v.y as i128) + (self.m02 as i128) * (v.z as i128);
        let y: i128 = (self.m10 as i128) * (v.x as i128) + (self.m11 as i128) * (v.y as i128) + (self.m12 as i128) * (v.z as i128);
        let z: i128 = (self.m20 as i128) * (v.x as i128) + (self.m21 as i128) * (v.y as i128) + (self.m22 as i128) * (v.z as i128);
        Vec3 { x: x as i64, y: y as i64, z: z as i64, den: self.den * v.den }
    }

    pub fn transpose(&self) -> (r: Mat3)
        ensures
            r@ == m3_transpose(self@),
            r == (Mat3 {
                m00: self.m00,
                m01: self.m10,
                m02: self.m20,
                m10: self.m01,
                m11: self.m11,
                m12: self.m21,
                m20: self.m02,
                m21: self.m12,
                m22: self.m22,
                den: self.den,
            }),
    {
        Mat3 {
            m00: self.m00,
            m01: self.m10,
            m02: self.m20,
            m10: self.m01,
            m11: self.m11,
            m12: self.m21,
            m20: self.m02,
            m21: self.m12,
            m22: self.m22,
            den: self.den,
        }
    }

    /// Whether the two matrices denote exactly the same rational matrix.
    pub fn approx_eq(&self, other: &Mat3) -> (r: bool)
        ensures
            r == mat3_eq(self@, other@),
    {
        proof {
            lemma_mul_bound(self@.m00, other@.den, 0x8000_0000_0000_0000, 0x8000_0000_0000_0000);
            lemma_mul_bound(other@.m00, self@.den, 0x8000_0000_0000_0000, 0x8000_0000_0000_0000);
            lemma_mul_bound(self@.m01, other@.den, 0x8000_0000_0000_0000, 0x8000_0000_0000_0000);
            lemma_mul_bound(other@.m01, self@.den, 0x8000_0000_0000_0000, 0x8000_0000_0000_0000);
            lemma_mul_bound(self@.m02, other@.den, 0x8000_0000_0000_0000, 0x8000_0000_0000_0000);
            lemma_mul_bound(other@.m02, self@.den, 0x8000_0000_0000_0000, 0x8000_0000_0000_0000);
            lemma_mul_bound(self@.m10, other@.den, 0x8000_0000_0000_0000, 0x8000_0000_0000_0000);
            lemma_mul_bound(other@.m10, self@.den, 0x8000_0000_0000_0000, 0x8000_0000_0000_0000);
            lemma_mul_bound(self@.m11, other@.den, 0x8000_0000_0000_0000, 0x8000_0000_0000_0000);
            lemma_mul_bound(other@.m11, self@.den, 0x8000_0000_0000_0000, 0x8000_0000_0000_0000);
            lemma_mul_bound(self@.m12, other@.den, 0x8000_0000_0000_0000, 0x8000_0000_0000_0000);
            lemma_mul_bound(other@.m12, self@.den, 0x8000_0000_0000_0000, 0x8000_0000_0000_0000);
            lemma_mul_bound(self@.m20, other@.den, 0x8000_0000_0000_0000, 0x8000_0000_0000_0000);
            lemma_mul_bound(other@.m20, self@.den, 0x8000_0000_0000_0000, 0x8000_0000_0000_0000);
            lemma_mul_bound(self@.m21, other@.den, 0x8000_0000_0000_0000, 0x8000_0000_0000_0000);
            lemma_mul_bound(other@.m21, self@.den, 0x8000_0000_0000_0000, 0x8000_0000_0000_0000);
            lemma_mul_bound(self@.m22, other@.den, 0x8000_0000_0000_0000, 0x8000_0000_0000_0000);
            lemma_mul_bound(other@.m22, self@.den, 0x8000_0000_0000_0000, 0x8000_0000_0000_0000);
        }
        let da = self.den as i128;
        let db = other.den as i128;
        (self.m00 as i128) * db == (other.m00 as i128) * da
            && (self.m01 as i128) * db == (other.m01 as i128) * da
            && (self.m02 as i128) * db == (other.m02 as i128) * da
            && (self.m10 as i128) * db == (other.m10 as i128) * da
            && (self.m11 as i128) * db == (other.m11 as i128) * da
            && (self.m12 as i128) * db == (other.m12 as i128) * da
            && (self.m20 as i128) * db == (other.m20 as i128) * da
            && (self.m21 as i128) * db == (other.m21 as i128) * da
            && (self.m22 as i128) * db == (other.m22 as i128) * da
    }

    /// Whether every entry of the two matrices differs by at most `en/ed`.
    pub fn approx_eq_eps(&self, other: &Mat3, en: i64, ed: i64) -> (r: bool)
        requires
            m3_bounded(self@, 0x4000_0000),
            m3_bounded(other@, 0x4000_0000),
            0 <= en <= 0x4000_0000,
            0 < ed <= 0x4000_0000,
        ensures
            r == mat3_close(self@, other@, en as int, ed as int),
    {
        proof {
            lemma_mul_bound(self@.m00, other@.den, 0x4000_0000, 0x4000_0000);
            lemma_mul_bound(other@.m00, self@.den, 0x4000_0000, 0x4000_0000);
            lemma_mul_bound(self@.m00 * other@.den - other@.m00 * self@.den, ed as int,
                0x4000_0000_0000_0000, 0x4000_0000);
            lemma_mul_bound(self@.m01, other@.den, 0x4000_0000, 0x4000_0000);
            lemma_mul_bound(other@.m01, self@.den, 0x4000_0000, 0x4000_0000);
            lemma_mul_bound(self@.m01 * other@.den - other@.m01 * self@.den, ed as int,
                0x4000_0000_0000_0000, 0x4000_0000);
            lemma_mul_bound(self@.m02, other@.den, 0x4000_0000, 0x4000_0000);
            lemma_mul_bound(other@.m02, self@.den, 0x4000_0000, 0x4000_0000);
            lemma_mul_bound(self@.m02 * other@.den - other@.m02 * self@.den, ed as int,
                0x4000_0000_0000_0000, 0x4000_0000);
            lemma_mul_bound(self@.m10, other@.den, 0x4000_0000, 0x4000_0000);
            lemma_mul_bound(other@.m10, self@.den, 0x4000_0000, 0x4000_0000);
            lemma_mul_bound(self@.m10 * other@.den - other@.m10 * self@.den, ed as int,
                0x4000_0000_0000_0000, 0x4000_0000);
            lemma_mul_bound(self@.m11, other@.den, 0x4000_0000, 0x4000_0000);
            lemma_mul_bound(other@.m11, self@.den, 0x4000_0000, 0x4000_0000);
            lemma_mul_bound(self@.m11 * other@.den - other@.m11 * self@.den, ed as int,
                0x4000_0000_0000_0000, 0x4000_0000);
            lemma_mul_bound(self@.m12, other@.den, 0x4000_0000, 0x4000_0000);
            lemma_mul_bound(other@.m12, self@.den, 0x4000_0000, 0x4000_0000);
            lemma_mul_bound(self@.m12 * other@.den - other@.m12 * self@.den, ed as int,
                0x4000_0000_0000_0000, 0x4000_0000);
            lemma_mul_bound(self@.m20, other@.den, 0x4000_0000, 0x4000_0000);
            lemma_mul_bound(other@.m20, self@.den, 0x4000_0000, 0x4000_0000);
            lemma_mul_bound(self@.m20 * other@.den - other@.m20 * self@.den, ed as int,
                0x4000_0000_0000_0000, 0x4000_0000);
            lemma_mul_bound(self@.m21, other@.den, 0x4000_0000, 0x4000_0000);
            lemma_mul_bound(other@.m21, self@.den, 0x4000_0000, 0x4000_0000);
            lemma_mul_bound(self@.m21 * other@.den - other@.m21 * self@.den, ed as int,
                0x4000_0000_0000_0000, 0x4000_0000);
            lemma_mul_bound(self@.m22, other@.den, 0x4000_0000, 0x4000_0000);
            lemma_mul_bound(other@.m22, self@.den, 0x4000_0000, 0x4000_0000);
            lemma_mul_bound(self@.m22 * other@.den - other@.m22 * self@.den, ed as int,
                0x4000_0000_0000_0000, 0x4000_0000);
            lemma_mul_bound(self@.den, other@.den, 0x4000_0000, 0x4000_0000);
            lemma_mul_bound(en as int, self@.den * other@.den, 0x4000_0000,
                0x1000_0000_0000_0000);
        }
        let da = self.den as i128;
        let db = other.den as i128;
        let bound: i128 = (en as i128) * (da * db);
        let d00: i128 = ((self.m00 as i128) * db - (other.m00 as i128) * da) * (ed as i128);
        let d01: i128 = ((self.m01 as i128) * db - (other.m01 as i128) * da) * (ed as i128);
        let d02: i128 = ((self.m02 as i128) * db - (other.m02 as i128) * da) * (ed as i128);
        let d10: i128 = ((self.m10 as i128) * db - (other.m10 as i128) * da) * (ed as i128);
        let d11: i128 = ((self.m11 as i128) * db - (other.m11 as i128) * da) * (ed as i128);
        let d12: i128 = ((self.m12 as i128) * db - (other.m12 as i128) * da) * (ed as i128);
        let d20: i128 = ((self.m20 as i128) * db - (other.m20 as i128) * da) * (ed as i128);
        let d21: i128 = ((self.m21 as i128) * db - (other.m21 as i128) * da) * (ed as i128);
        let d22: i128 = ((self.m22 as i128) * db - (other.m22 as i128) * da) * (ed as i128);
        -bound <= d00 && d00 <= bound && -bound <= d01 && d01 <= bound && -bound <= d02 && d02 <= bound && -bound <= d10 && d10 <= bound && -bound <= d11 && d11 <= bound && -bound <= d12 && d12 <= bound && -bound <= d20 && d20 <= bound && -bound <= d21 && d21 <= bound && -bound <= d22 && d22 <= bound
    }
}

/// Multiplication distributes over a three-part sum on the left.
proof fn lemma_dist3r(u1: int, u2: int, u3: int, x: int)
    ensures
        (u1 + u2 + u3) * x == u1 * x + u2 * x + u3 * x,
{
    assert((u1 + u2 + u3) * x == u1 * x + u2 * x + u3 * x) by (nonlinear_arith);
}

/// Multiplication distributes over a three-part sum on the right.
proof fn lemma_dist3l(a: int, u1: int, u2: int, u3: int)
    ensures
        a * (u1 + u2 + u3) == a * u1 + a * u2 + a * u3,
{
    assert(a * (u1 + u2 + u3) == a * u1 + a * u2 + a * u3) by (nonlinear_arith);
}

/// Two products of two factors each, with the middle factors exchanged.
proof fn lemma_swap4(a: int, b: int, c: int, d: int)
    ensures
        (a * b) * (c * d) == (a * c) * (b * d),
{
    assert((a * b) * (c * d) == (a * c) * (b * d)) by (nonlinear_arith);
}

/// Multiplication is commutative.
proof fn lemma_comm(x: int, y: int)
    ensures
        x * y == y * x,
{
    assert(x * y == y * x) by (nonlinear_arith);
}

/// The identity matrix maps every vector to itself.
pub proof fn lemma_m3_mul_v_id(v: Vec3M)
    ensures
        m3_mul_v(m3_id(), v) == v,
{
    assert(1 * v.x + 0 * v.y + 0 * v.z == v.x) by (nonlinear_arith);
    assert(0 * v.x + 1 * v.y + 0 * v.z == v.y) by (nonlinear_arith);
    assert(0 * v.x + 0 * v.y + 1 * v.z == v.z) by (nonlinear_arith);
    assert(1 * v.den == v.den) by (nonlinear_arith);
    assert(m3_mul_v(m3_id(), v) =~= v);
}

/// The identity matrix is a left and right unit for multiplication.
pub proof fn lemma_m3_mul_id(m: Mat3M)
    ensures
        m3_mul(m3_id(), m) == m,
        m3_mul(m, m3_id()) == m,
{
    assert(1 * m.m00 + 0 * m.m10 + 0 * m.m20 == m.m00) by (nonlinear_arith);
    assert(m.m00 * 1 + m.m01 * 0 + m.m02 * 0 == m.m00) by (nonlinear_arith);
    assert(1 * m.m01 + 0 * m.m11 + 0 * m.m21 == m.m01) by (nonlinear_arith);
    assert(m.m00 * 0 + m.m01 * 1 + m.m02 * 0 == m.m01) by (nonlinear_arith);
    assert(1 * m.m02 + 0 * m.m12 + 0 * m.m22 == m.m02) by (nonlinear_arith);
    assert(m.m00 * 0 + m.m01 * 0 + m.m02 * 1 == m.m02) by (nonlinear_arith);
    assert(0 * m.m00 + 1 * m.m10 + 0 * m.m20 == m.m10) by (nonlinear_arith);
    assert(m.m10 * 1 + m.m11 * 0 + m.m12 * 0 == m.m10) by (nonlinear_arith);
    assert(0 * m.m01 + 1 * m.m11 + 0 * m.m21 == m.m11) by (nonlinear_arith);
    assert(m.m10 * 0 + m.m11 * 1 + m.m12 * 0 == m.m11) by (nonlinear_arith);
    assert(0 * m.m02 + 1 * m.m12 + 0 * m.m22 == m.m12) by (nonlinear_arith);
    assert(m.m10 * 0 + m.m11 * 0 + m.m12 * 1 == m.m12) by (nonlinear_arith);
    assert(0 * m.m00 + 0 * m.m10 + 1 * m.m20 == m.m20) by (nonlinear_arith);
    assert(m.m20 * 1 + m.m21 * 0 + m.m22 * 0 == m.m20) by (nonlinear_arith);
    assert(0 * m.m01 + 0 * m.m11 + 1 * m.m21 == m.m21) by (nonlinear_arith);
    assert(m.m20 * 0 + m.m21 * 1 + m.m22 * 0 == m.m21) by (nonlinear_arith);
    assert(0 * m.m02 + 0 * m.m12 + 1 * m.m22 == m.m22) by (nonlinear_arith);
    assert(m.m20 * 0 + m.m21 * 0 + m.m22 * 1 == m.m22) by (nonlinear_arith);
    assert(1 * m.den == m.den) by (nonlinear_arith);
    assert(m.den * 1 == m.den) by (nonlinear_arith);
    assert(m3_mul(m3_id(), m) =~= m);
    assert(m3_mul(m, m3_id()) =~= m);
}

/// Matrix multiplication is associative.
pub proof fn lemma_m3_mul_assoc(a: Mat3M, b: Mat3M, c: Mat3M)
    ensures
        m3_mul(m3_mul(a, b), c) == m3_mul(a, m3_mul(b, c)),
{
    lemma_dist3r(a.m00 * b.m00, a.m01 * b.m10, a.m02 * b.m20, c.m00);
    lemma_assoc3(a.m00, b.m00, c.m00);
    lemma_assoc3(a.m01, b.m10, c.m00);
    lemma_assoc3(a.m02, b.m20, c.m00);
    lemma_dist3l(a.m00, b.m00 * c.m00, b.m01 * c.m10, b.m02 * c.m20);
    lemma_dist3r(a.m00 * b.m01, a.m01 * b.m11, a.m02 * b.m21, c.m10);
    lemma_assoc3(a.m00, b.m01, c.m10);
    lemma_assoc3(a.m01, b.m11, c.m10);
    lemma_assoc3(a.m02, b.m21, c.m10);
    lemma_dist3l(a.m01, b.m10 * c.m00, b.m11 * c.m10, b.m12 * c.m20);
    lemma_dist3r(a.m00 * b.m02, a.m01 * b.m12, a.m02 * b.m22, c.m20);
    lemma_assoc3(a.m00, b.m02, c.m20);
    lemma_assoc3(a.m01, b.m12, c.m20);
    lemma_assoc3(a.m02, b.m22, c.m20);
    lemma_dist3l(a.m02, b.m20 * c.m00, b.m21 * c.m10, b.m22 * c.m20);
    lemma_dist3r(a.m00 * b.m00, a.m01 * b.m10, a.m02 * b.m20, c.m01);
    lemma_assoc3(a.m00, b.m00, c.m01);
    lemma_assoc3(a.m01, b.m10, c.m01);
    lemma_assoc3(a.m02, b.m20, c.m01);
    lemma_dist3l(a.m00, b.m00 * c.m01, b.m01 * c.m11, b.m02 * c.m21);
    lemma_dist3r(a.m00 * b.m01, a.m01 * b.m11, a.m02 * b.m21, c.m11);
    lemma_assoc3(a.m00, b.m01, c.m11);
    lemma_assoc3(a.m01, b.m11, c.m11);
    lemma_assoc3(a.m02, b.m21, c.m11);
    lemma_dist3l(a.m01, b.m10 * c.m01, b.m11 * c.m11, b.m12 * c.m21);
    lemma_dist3r(a.m00 * b.m02, a.m01 * b.m12, a.m02 * b.m22, c.m21);
    lemma_assoc3(a.m00, b.m02, c.m21);
    lemma_assoc3(a.m01, b.m12, c.m21);
    lemma_assoc3(a.m02, b.m22, c.m21);
    lemma_dist3l(a.m02, b.m20 * c.m01, b.m21 * c.m11, b.m22 * c.m21);
    lemma_dist3r(a.m00 * b.m00, a.m01 * b.m10, a.m02 * b.m20, c.m02);
    lemma_assoc3(a.m00, b.m00, c.m02);
    lemma_assoc3(a.m01, b.m10, c.m02);
    lemma_assoc3(a.m02, b.m20, c.m02);
    lemma_dist3l(a.m00, b.m00 * c.m02, b.m01 * c.m12, b.m02 * c.m22);
    lemma_dist3r(a.m00 * b.m01, a.m01 * b.m11, a.m02 * b.m21, c.m12);
    lemma_assoc3(a.m00, b.m01, c.m12);
    lemma_assoc3(a.m01, b.m11, c.m12);
    lemma_assoc3(a.m02, b.m21, c.m12);
    lemma_dist3l(a.m01, b.m10 * c.m02, b.m11 * c.m12, b.m12 * c.m22);
    lemma_dist3r(a.m00 * b.m02, a.m01 * b.m12, a.m02 * b.m22, c.m22);
    lemma_assoc3(a.m00, b.m02, c.m22);
    lemma_assoc3(a.m01, b.m12, c.m22);
    lemma_assoc3(a.m02, b.m22, c.m22);
    lemma_dist3l(a.m02, b.m20 * c.m02, b.m21 * c.m12, b.m22 * c.m22);
    lemma_dist3r(a.m10 * b.m00, a.m11 * b.m10, a.m12 * b.m20, c.m00);
    lemma_assoc3(a.m10, b.m00, c.m00);
    lemma_assoc3(a.m11, b.m10, c.m00);
    lemma_assoc3(a.m12, b.m20, c.m00);
    lemma_dist3l(a.m10, b.m00 * c.m00, b.m01 * c.m10, b.m02 * c.m20);
    lemma_dist3r(a.m10 * b.m01, a.m11 * b.m11, a.m12 * b.m21, c.m10);
    lemma_assoc3(a.m10, b.m01, c.m10);
    lemma_assoc3(a.m11, b.m11, c.m10);
    lemma_assoc3(a.m12, b.m21, c.m10);
    lemma_dist3l(a.m11, b.m10 * c.m00, b.m11 * c.m10, b.m12 * c.m20);
    lemma_dist3r(a.m10 * b.m02, a.m11 * b.m12, a.m12 * b.m22, c.m20);
    lemma_assoc3(a.m10, b.m02, c.m20);
    lemma_assoc3(a.m11, b.m12, c.m20);
    lemma_assoc3(a.m12, b.m22, c.m20);
    lemma_dist3l(a.m12, b.m20 * c.m00, b.m21 * c.m10, b.m22 * c.m20);
    lemma_dist3r(a.m10 * b.m00, a.m11 * b.m10, a.m12 * b.m20, c.m01);
    lemma_assoc3(a.m10, b.m00, c.m01);
    lemma_assoc3(a.m11, b.m10, c.m01);
    lemma_assoc3(a.m12, b.m20, c.m01);
    lemma_dist3l(a.m10, b.m00 * c.m01, b.m01 * c.m11, b.m02 * c.m21);
    lemma_dist3r(a.m10 * b.m01, a.m11 * b.m11, a.m12 * b.m21, c.m11);
    lemma_assoc3(a.m10, b.m01, c.m11);
    lemma_assoc3(a.m11, b.m11, c.m11);
    lemma_assoc3(a.m12, b.m21, c.m11);
    lemma_dist3l(a.m11, b.m10 * c.m01, b.m11 * c.m11, b.m12 * c.m21);
    lemma_dist3r(a.m10 * b.m02, a.m11 * b.m12, a.m12 * b.m22, c.m21);
    lemma_assoc3(a.m10, b.m02, c.m21);
    lemma_assoc3(a.m11, b.m12, c.m21);
    lemma_assoc3(a.m12, b.m22, c.m21);
    lemma_dist3l(a.m12, b.m20 * c.m01, b.m21 * c.m11, b.m22 * c.m21);
    lemma_dist3r(a.m10 * b.m00, a.m11 * b.m10, a.m12 * b.m20, c.m02);
    lemma_assoc3(a.m10, b.m00, c.m02);
    lemma_assoc3(a.m11, b.m10, c.m02);
    lemma_assoc3(a.m12, b.m20, c.m02);
    lemma_dist3l(a.m10, b.m00 * c.m02, b.m01 * c.m12, b.m02 * c.m22);
    lemma_dist3r(a.m10 * b.m01, a.m11 * b.m11, a.m12 * b.m21, c.m12);
    lemma_assoc3(a.m10, b.m01, c.m12);
    lemma_assoc3(a.m11, b.m11, c.m12);
    lemma_assoc3(a.m12, b.m21, c.m12);
    lemma_dist3l(a.m11, b.m10 * c.m02, b.m11 * c.m12, b.m12 * c.m22);
    lemma_dist3r(a.m10 * b.m02, a.m11 * b.m12, a.m12 * b.m22, c.m22);
    lemma_assoc3(a.m10, b.m02, c.m22);
    lemma_assoc3(a.m11, b.m12, c.m22);
    lemma_assoc3(a.m12, b.m22, c.m22);
    lemma_dist3l(a.m12, b.m20 * c.m02, b.m21 * c.m12, b.m22 * c.m22);
    lemma_dist3r(a.m20 * b.m00, a.m21 * b.m10, a.m22 * b.m20, c.m00);
    lemma_assoc3(a.m20, b.m00, c.m00);
    lemma_assoc3(a.m21, b.m10, c.m00);
    lemma_assoc3(a.m22, b.m20, c.m00);
    lemma_dist3l(a.m20, b.m00 * c.m00, b.m01 * c.m10, b.m02 * c.m20);
    lemma_dist3r(a.m20 * b.m01, a.m21 * b.m11, a.m22 * b.m21, c.m10);
    lemma_assoc3(a.m20, b.m01, c.m10);
    lemma_assoc3(a.m21, b.m11, c.m10);
    lemma_assoc3(a.m22, b.m21, c.m10);
    lemma_dist3l(a.m21, b.m10 * c.m00, b.m11 * c.m10, b.m12 * c.m20);
    lemma_dist3r(a.m20 * b.m02, a.m21 * b.m12, a.m22 * b.m22, c.m20);
    lemma_assoc3(a.m20, b.m02, c.m20);
    lemma_assoc3(a.m21, b.m12, c.m20);
    lemma_assoc3(a.m22, b.m22, c.m20);
    lemma_dist3l(a.m22, b.m20 * c.m00, b.m21 * c.m10, b.m22 * c.m20);
    lemma_dist3r(a.m20 * b.m00, a.m21 * b.m10, a.m22 * b.m20, c.m01);
    lemma_assoc3(a.m20, b.m00, c.m01);
    lemma_assoc3(a.m21, b.m10, c.m01);
    lemma_assoc3(a.m22, b.m20, c.m01);
    lemma_dist3l(a.m20, b.m00 * c.m01, b.m01 * c.m11, b.m02 * c.m21);
    lemma_dist3r(a.m20 * b.m01, a.m21 * b.m11, a.m22 * b.m21, c.m11);
    lemma_assoc3(a.m20, b.m01, c.m11);
    lemma_assoc3(a.m21, b.m11, c.m11);
    lemma_assoc3(a.m22, b.m21, c.m11);
    lemma_dist3l(a.m21, b.m10 * c.m01, b.m11 * c.m11, b.m12 * c.m21);
    lemma_dist3r(a.m20 * b.m02, a.m21 * b.m12, a.m22 * b.m22, c.m21);
    lemma_assoc3(a.m20, b.m02, c.m21);
    lemma_assoc3(a.m21, b.m12, c.m21);
    lemma_assoc3(a.m22, b.m22, c.m21);
    lemma_dist3l(a.m22, b.m20 * c.m01, b.m21 * c.m11, b.m22 * c.m21);
    lemma_dist3r(a.m20 * b.m00, a.m21 * b.m10, a.m22 * b.m20, c.m02);
    lemma_assoc3(a.m20, b.m00, c.m02);
    lemma_assoc3(a.m21, b.m10, c.m02);
    lemma_assoc3(a.m22, b.m20, c.m02);
    lemma_dist3l(a.m20, b.m00 * c.m02, b.m01 * c.m12, b.m02 * c.m22);
    lemma_dist3r(a.m20 * b.m01, a.m21 * b.m11, a.m22 * b.m21, c.m12);
    lemma_assoc3(a.m20, b.m01, c.m12);
    lemma_assoc3(a.m21, b.m11, c.m12);
    lemma_assoc3(a.m22, b.m21, c.m12);
    lemma_dist3l(a.m21, b.m10 * c.m02, b.m11 * c.m12, b.m12 * c.m22);
    lemma_dist3r(a.m20 * b.m02, a.m21 * b.m12, a.m22 * b.m22, c.m22);
    lemma_assoc3(a.m20, b.m02, c.m22);
    lemma_assoc3(a.m21, b.m12, c.m22);
    lemma_assoc3(a.m22, b.m22, c.m22);
    lemma_dist3l(a.m22, b.m20 * c.m02, b.m21 * c.m12, b.m22 * c.m22);
    lemma_assoc3(a.den, b.den, c.den);
    assert(m3_mul(m3_mul(a, b), c) =~= m3_mul(a, m3_mul(b, c)));
}

/// Applying a product applies the right factor first.
pub proof fn lemma_m3_mul_v_assoc(a: Mat3M, b: Mat3M, v: Vec3M)
    ensures
        m3_mul_v(m3_mul(a, b), v) == m3_mul_v(a, m3_mul_v(b, v)),
{
    lemma_dist3r(a.m00 * b.m00, a.m01 * b.m10, a.m02 * b.m20, v.x);
    lemma_assoc3(a.m00, b.m00, v.x);
    lemma_assoc3(a.m01, b.m10, v.x);
    lemma_assoc3(a.m02, b.m20, v.x);
    lemma_dist3r(a.m00 * b.m01, a.m01 * b.m11, a.m02 * b.m21, v.y);
    lemma_assoc3(a.m00, b.m01, v.y);
    lemma_assoc3(a.m01, b.m11, v.y);
    lemma_assoc3(a.m02, b.m21, v.y);
    lemma_dist3r(a.m00 * b.m02, a.m01 * b.m12, a.m02 * b.m22, v.z);
    lemma_assoc3(a.m00, b.m02, v.z);
    lemma_assoc3(a.m01, b.m12, v.z);
    lemma_assoc3(a.m02, b.m22, v.z);
    lemma_dist3l(a.m00, b.m00 * v.x, b.m01 * v.y, b.m02 * v.z);
    lemma_dist3l(a.m01, b.m10 * v.x, b.m11 * v.y, b.m12 * v.z);
    lemma_dist3l(a.m02, b.m20 * v.x, b.m21 * v.y, b.m22 * v.z);
    lemma_dist3r(a.m10 * b.m00, a.m11 * b.m10, a.m12 * b.m20, v.x);
    lemma_assoc3(a.m10, b.m00, v.x);
    lemma_assoc3(a.m11, b.m10, v.x);
    lemma_assoc3(a.m12, b.m20, v.x);
    lemma_dist3r(a.m10 * b.m01, a.m11 * b.m11, a.m12 * b.m21, v.y);
    lemma_assoc3(a.m10, b.m01, v.y);
    lemma_assoc3(a.m11, b.m11, v.y);
    lemma_assoc3(a.m12, b.m21, v.y);
    lemma_dist3r(a.m10 * b.m02, a.m11 * b.m12, a.m12 * b.m22, v.z);
    lemma_assoc3(a.m10, b.m02, v.z);
    lemma_assoc3(a.m11, b.m12, v.z);
    lemma_assoc3(a.m12, b.m22, v.z);
    lemma_dist3l(a.m10, b.m00 * v.x, b.m01 * v.y, b.m02 * v.z);
    lemma_dist3l(a.m11, b.m10 * v.x, b.m11 * v.y, b.m12 * v.z);
    lemma_dist3l(a.m12, b.m20 * v.x, b.m21 * v.y, b.m22 * v.z);
    lemma_dist3r(a.m20 * b.m00, a.m21 * b.m10, a.m22 * b.m20, v.x);
    lemma_assoc3(a.m20, b.m00, v.x);
    lemma_assoc3(a.m21, b.m10, v.x);
    lemma_assoc3(a.m22, b.m20, v.x);
    lemma_dist3r(a.m20 * b.m01, a.m21 * b.m11, a.m22 * b.m21, v.y);
    lemma_assoc3(a.m20, b.m01, v.y);
    lemma_assoc3(a.m21, b.m11, v.y);
    lemma_assoc3(a.m22, b.m21, v.y);
    lemma_dist3r(a.m20 * b.m02, a.m21 * b.m12, a.m22 * b.m22, v.z);
    lemma_assoc3(a.m20, b.m02, v.z);
    lemma_assoc3(a.m21, b.m12, v.z);
    lemma_assoc3(a.m22, b.m22, v.z);
    lemma_dist3l(a.m20, b.m00 * v.x, b.m01 * v.y, b.m02 * v.z);
    lemma_dist3l(a.m21, b.m10 * v.x, b.m11 * v.y, b.m12 * v.z);
    lemma_dist3l(a.m22, b.m20 * v.x, b.m21 * v.y, b.m22 * v.z);
    lemma_assoc3(a.den, b.den, v.den);
    assert(m3_mul_v(m3_mul(a, b), v) =~= m3_mul_v(a, m3_mul_v(b, v)));
}

/// An orthogonal matrix preserves dot products of the vectors it maps,
/// scaled by its squared denominator.
pub proof fn lemma_m3_preserves_dot(a: Mat3M, u: Vec3M, v: Vec3M)
    requires
        a.m00 * a.m00 + a.m10 * a.m10 + a.m20 * a.m20 == a.den * a.den,
        a.m01 * a.m01 + a.m11 * a.m11 + a.m21 * a.m21 == a.den * a.den,
        a.m02 * a.m02 + a.m12 * a.m12 + a.m22 * a.m22 == a.den * a.den,
        a.m00 * a.m01 + a.m10 * a.m11 + a.m20 * a.m21 == 0,
        a.m00 * a.m02 + a.m10 * a.m12 + a.m20 * a.m22 == 0,
        a.m01 * a.m02 + a.m11 * a.m12 + a.m21 * a.m22 == 0,
    ensures
        m3_mul_v(a, u).x * m3_mul_v(a, v).x + m3_mul_v(a, u).y * m3_mul_v(a, v).y + m3_mul_v(a, u).z * m3_mul_v(a, v).z == (a.den * a.den) * (u.x * v.x + u.y * v.y + u.z * v.z),
{
    lemma_dist3r(a.m00 * u.x, a.m01 * u.y, a.m02 * u.z, a.m00 * v.x + a.m01 * v.y + a.m02 * v.z);
    lemma_dist3l(a.m00 * u.x, a.m00 * v.x, a.m01 * v.y, a.m02 * v.z);
    lemma_dist3l(a.m01 * u.y, a.m00 * v.x, a.m01 * v.y, a.m02 * v.z);
    lemma_dist3l(a.m02 * u.z, a.m00 * v.x, a.m01 * v.y, a.m02 * v.z);
    lemma_swap4(a.m00, u.x, a.m00, v.x);
    lemma_swap4(a.m00, u.x, a.m01, v.y);
    lemma_swap4(a.m00, u.x, a.m02, v.z);
    lemma_swap4(a.m01, u.y, a.m00, v.x);
    lemma_swap4(a.m01, u.y, a.m01, v.y);
    lemma_swap4(a.m01, u.y, a.m02, v.z);
    lemma_swap4(a.m02, u.z, a.m00, v.x);
    lemma_swap4(a.m02, u.z, a.m01, v.y);
    lemma_swap4(a.m02, u.z, a.m02, v.z);
    lemma_dist3r(a.m10 * u.x, a.m11 * u.y, a.m12 * u.z, a.m10 * v.x + a.m11 * v.y + a.m12 * v.z);
    lemma_dist3l(a.m10 * u.x, a.m10 * v.x, a.m11 * v.y, a.m12 * v.z);
    lemma_dist3l(a.m11 * u.y, a.m10 * v.x, a.m11 * v.y, a.m12 * v.z);
    lemma_dist3l(a.m12 * u.z, a.m10 * v.x, a.m11 * v.y, a.m12 * v.z);
    lemma_swap4(a.m10, u.x, a.m10, v.x);
    lemma_swap4(a.m10, u.x, a.m11, v.y);
    lemma_swap4(a.m10, u.x, a.m12, v.z);
    lemma_swap4(a.m11, u.y, a.m10, v.x);
    lemma_swap4(a.m11, u.y, a.m11, v.y);
    lemma_swap4(a.m11, u.y, a.m12, v.z);
    lemma_swap4(a.m12, u.z, a.m10, v.x);
    lemma_swap4(a.m12, u.z, a.m11, v.y);
    lemma_swap4(a.m12, u.z, a.m12, v.z);
    lemma_dist3r(a.m20 * u.x, a.m21 * u.y, a.m22 * u.z, a.m20 * v.x + a.m21 * v.y + a.m22 * v.z);
    lemma_dist3l(a.m20 * u.x, a.m20 * v.x, a.m21 * v.y, a.m22 * v.z);
    lemma_dist3l(a.m21 * u.y, a.m20 * v.x, a.m21 * v.y, a.m22 * v.z);
    lemma_dist3l(a.m22 * u.z, a.m20 * v.x, a.m21 * v.y, a.m22 * v.z);
    lemma_swap4(a.m20, u.x, a.m20, v.x);
    lemma_swap4(a.m20, u.x, a.m21, v.y);
    lemma_swap4(a.m20, u.x, a.m22, v.z);
    lemma_swap4(a.m21, u.y, a.m20, v.x);
    lemma_swap4(a.m21, u.y, a.m21, v.y);
    lemma_swap4(a.m21, u.y, a.m22, v.z);
    lemma_swap4(a.m22, u.z, a.m20, v.x);
    lemma_swap4(a.m22, u.z, a.m21, v.y);
    lemma_swap4(a.m22, u.z, a.m22, v.z);
    lemma_dist3r(a.m00 * a.m00, a.m10 * a.m10, a.m20 * a.m20, u.x * v.x);
    lemma_dist3r(a.m00 * a.m01, a.m10 * a.m11, a.m20 * a.m21, u.x * v.y);
    lemma_dist3r(a.m00 * a.m02, a.m10 * a.m12, a.m20 * a.m22, u.x * v.z);
    lemma_comm(a.m01, a.m00);
    lemma_comm(a.m11, a.m10);
    lemma_comm(a.m21, a.m20);
    lemma_dist3r(a.m01 * a.m00, a.m11 * a.m10, a.m21 * a.m20, u.y * v.x);
    lemma_dist3r(a.m01 * a.m01, a.m11 * a.m11, a.m21 * a.m21, u.y * v.y);
    lemma_dist3r(a.m01 * a.m02, a.m11 * a.m12, a.m21 * a.m22, u.y * v.z);
    lemma_comm(a.m02, a.m00);
    lemma_comm(a.m12, a.m10);
    lemma_comm(a.m22, a.m20);
    lemma_dist3r(a.m02 * a.m00, a.m12 * a.m10, a.m22 * a.m20, u.z * v.x);
    lemma_comm(a.m02, a.m01);
    lemma_comm(a.m12, a.m11);
    lemma_comm(a.m22, a.m21);
    lemma_dist3r(a.m02 * a.m01, a.m12 * a.m11, a.m22 * a.m21, u.z * v.y);
    lemma_dist3r(a.m02 * a.m02, a.m12 * a.m12, a.m22 * a.m22, u.z * v.z);
    lemma_dist3l(a.den * a.den, u.x * v.x, u.y * v.y, u.z * v.z);
    assert(m3_mul_v(a, u).x * m3_mul_v(a, v).x + m3_mul_v(a, u).y * m3_mul_v(a, v).y + m3_mul_v(a, u).z * m3_mul_v(a, v).z == (a.den * a.den) * (u.x * v.x + u.y * v.y + u.z * v.z));
}

/// Orthogonality is preserved by multiplication.
pub proof fn lemma_rot3_mul(a: Mat3M, b: Mat3M)
    requires
        rot3_wf(a),
        rot3_wf(b),
    ensures
        rot3_wf(m3_mul(a, b)),
{
    assert(a.den * b.den > 0) by (nonlinear_arith)
        requires
            a.den > 0,
            b.den > 0,
    ;
    assert((a.den * a.den) * (b.den * b.den) == (a.den * b.den) * (a.den * b.den))
        by (nonlinear_arith);
    assert((b.den * b.den) * (a.den * a.den) == (a.den * b.den) * (a.den * b.den))
        by (nonlinear_arith);
    assert((a.den * a.den) * 0 == 0) by (nonlinear_arith);
    assert((b.den * b.den) * 0 == 0) by (nonlinear_arith);
    let c = m3_mul(a, b);
    let bc0 = Vec3M { x: b.m00, y: b.m10, z: b.m20, den: b.den };
    let bc1 = Vec3M { x: b.m01, y: b.m11, z: b.m21, den: b.den };
    let bc2 = Vec3M { x: b.m02, y: b.m12, z: b.m22, den: b.den };
    assert(c.m00 == m3_mul_v(a, bc0).x);
    assert(c.m10 == m3_mul_v(a, bc0).y);
    assert(c.m20 == m3_mul_v(a, bc0).z);
    assert(c.m01 == m3_mul_v(a, bc1).x);
    assert(c.m11 == m3_mul_v(a, bc1).y);
    assert(c.m21 == m3_mul_v(a, bc1).z);
    assert(c.m02 == m3_mul_v(a, bc2).x);
    assert(c.m12 == m3_mul_v(a, bc2).y);
    assert(c.m22 == m3_mul_v(a, bc2).z);
    lemma_m3_preserves_dot(a, bc0, bc0);
    lemma_m3_preserves_dot(a, bc1, bc1);
    lemma_m3_preserves_dot(a, bc2, bc2);
    lemma_m3_preserves_dot(a, bc0, bc1);
    lemma_m3_preserves_dot(a, bc0, bc2);
    lemma_m3_preserves_dot(a, bc1, bc2);
    let t = m3_transpose(b);
    let ar0 = Vec3M { x: a.m00, y: a.m01, z: a.m02, den: a.den };
    let ar1 = Vec3M { x: a.m10, y: a.m11, z: a.m12, den: a.den };
    let ar2 = Vec3M { x: a.m20, y: a.m21, z: a.m22, den: a.den };
    lemma_comm(a.m00, b.m00);
    lemma_comm(a.m01, b.m10);
    lemma_comm(a.m02, b.m20);
    assert(c.m00 == m3_mul_v(t, ar0).x);
    lemma_comm(a.m00, b.m01);
    lemma_comm(a.m01, b.m11);
    lemma_comm(a.m02, b.m21);
    assert(c.m01 == m3_mul_v(t, ar0).y);
    lemma_comm(a.m00, b.m02);
    lemma_comm(a.m01, b.m12);
    lemma_comm(a.m02, b.m22);
    assert(c.m02 == m3_mul_v(t, ar0).z);
    lemma_comm(a.m10, b.m00);
    lemma_comm(a.m11, b.m10);
    lemma_comm(a.m12, b.m20);
    assert(c.m10 == m3_mul_v(t, ar1).x);
    lemma_comm(a.m10, b.m01);
    lemma_comm(a.m11, b.m11);
    lemma_comm(a.m12, b.m21);
    assert(c.m11 == m3_mul_v(t, ar1).y);
    lemma_comm(a.m10, b.m02);
    lemma_comm(a.m11, b.m12);
    lemma_comm(a.m12, b.m22);
    assert(c.m12 == m3_mul_v(t, ar1).z);
    lemma_comm(a.m20, b.m00);
    lemma_comm(a.m21, b.m10);
    lemma_comm(a.m22, b.m20);
    assert(c.m20 == m3_mul_v(t, ar2).x);
    lemma_comm(a.m20, b.m01);
    lemma_comm(a.m21, b.m11);
    lemma_comm(a.m22, b.m21);
    assert(c.m21 == m3_mul_v(t, ar2).y);
    lemma_comm(a.m20, b.m02);
    lemma_comm(a.m21, b.m12);
    lemma_comm(a.m22, b.m22);
    assert(c.m22 == m3_mul_v(t, ar2).z);
    lemma_m3_preserves_dot(t, ar0, ar0);
    lemma_m3_preserves_dot(t, ar1, ar1);
    lemma_m3_preserves_dot(t, ar2, ar2);
    lemma_m3_preserves_dot(t, ar0, ar1);
    lemma_m3_preserves_dot(t, ar0, ar2);
    lemma_m3_preserves_dot(t, ar1, ar2);
}

/// The transpose of an orthogonal matrix is orthogonal (its inverse).
pub proof fn lemma_rot3_transpose(m: Mat3M)
    requires
        rot3_wf(m),
    ensures
        rot3_wf(m3_transpose(m)),
{
}

/// The transpose is a two-sided inverse: both products are the identity
/// scaled by the squared denominator.
pub proof fn lemma_rot3_inverse(m: Mat3M)
    requires
        rot3_wf(m),
    ensures
        m3_mul(m3_transpose(m), m) == (Mat3M { m00: m.den * m.den, m01: 0, m02: 0, m10: 0, m11: m.den * m.den, m12: 0, m20: 0, m21: 0, m22: m.den * m.den, den: m.den * m.den }),
        m3_mul(m, m3_transpose(m)) == (Mat3M { m00: m.den * m.den, m01: 0, m02: 0, m10: 0, m11: m.den * m.den, m12: 0, m20: 0, m21: 0, m22: m.den * m.den, den: m.den * m.den }),
{
    lemma_comm(m.m01, m.m00);
    lemma_comm(m.m10, m.m00);
    lemma_comm(m.m11, m.m10);
    lemma_comm(m.m11, m.m01);
    lemma_comm(m.m21, m.m20);
    lemma_comm(m.m12, m.m02);
    lemma_comm(m.m02, m.m00);
    lemma_comm(m.m20, m.m00);
    lemma_comm(m.m12, m.m10);
    lemma_comm(m.m21, m.m01);
    lemma_comm(m.m22, m.m20);
    lemma_comm(m.m22, m.m02);
    lemma_comm(m.m02, m.m01);
    lemma_comm(m.m20, m.m10);
    lemma_comm(m.m12, m.m11);
    lemma_comm(m.m21, m.m11);
    lemma_comm(m.m22, m.m21);
    lemma_comm(m.m22, m.m12);
    assert(m3_mul(m3_transpose(m), m).m00 == m.m00 * m.m00 + m.m10 * m.m10 + m.m20 * m.m20);
    assert(m3_mul(m, m3_transpose(m)).m00 == m.m00 * m.m00 + m.m01 * m.m01 + m.m02 * m.m02);
    assert(m3_mul(m3_transpose(m), m).m01 == m.m00 * m.m01 + m.m10 * m.m11 + m.m20 * m.m21);
    assert(m3_mul(m, m3_transpose(m)).m01 == m.m00 * m.m10 + m.m01 * m.m11 + m.m02 * m.m12);
    assert(m3_mul(m3_transpose(m), m).m02 == m.m00 * m.m02 + m.m10 * m.m12 + m.m20 * m.m22);
    assert(m3_mul(m, m3_transpose(m)).m02 == m.m00 * m.m20 + m.m01 * m.m21 + m.m02 * m.m22);
    assert(m3_mul(m3_transpose(m), m).m10 == m.m01 * m.m00 + m.m11 * m.m10 + m.m21 * m.m20);
    assert(m3_mul(m, m3_transpose(m)).m10 == m.m10 * m.m00 + m.m11 * m.m01 + m.m12 * m.m02);
    assert(m3_mul(m3_transpose(m), m).m11 == m.m01 * m.m01 + m.m11 * m.m11 + m.m21 * m.m21);
    assert(m3_mul(m, m3_transpose(m)).m11 == m.m10 * m.m10 + m.m11 * m.m11 + m.m12 * m.m12);
    assert(m3_mul(m3_transpose(m), m).m12 == m.m01 * m.m02 + m.m11 * m.m12 + m.m21 * m.m22);
    assert(m3_mul(m, m3_transpose(m)).m12 == m.m10 * m.m20 + m.m11 * m.m21 + m.m12 * m.m22);
    assert(m3_mul(m3_transpose(m), m).m20 == m.m02 * m.m00 + m.m12 * m.m10 + m.m22 * m.m20);
    assert(m3_mul(m, m3_transpose(m)).m20 == m.m20 * m.m00 + m.m21 * m.m01 + m.m22 * m.m02);
    assert(m3_mul(m3_transpose(m), m).m21 == m.m02 * m.m01 + m.m12 * m.m11 + m.m22 * m.m21);
    assert(m3_mul(m, m3_transpose(m)).m21 == m.m20 * m.m10 + m.m21 * m.m11 + m.m22 * m.m12);
    assert(m3_mul(m3_transpose(m), m).m22 == m.m02 * m.m02 + m.m12 * m.m12 + m.m22 * m.m22);
    assert(m3_mul(m, m3_transpose(m)).m22 == m.m20 * m.m20 + m.m21 * m.m21 + m.m22 * m.m22);
    assert(m3_mul(m3_transpose(m), m) =~= Mat3M { m00: m.den * m.den, m01: 0, m02: 0, m10: 0, m11: m.den * m.den, m12: 0, m20: 0, m21: 0, m22: m.den * m.den, den: m.den * m.den });
    assert(m3_mul(m, m3_transpose(m)) =~= Mat3M { m00: m.den * m.den, m01: 0, m02: 0, m10: 0, m11: m.den * m.den, m12: 0, m20: 0, m21: 0, m22: m.den * m.den, den: m.den * m.den });
}

/// Every entry of an orthogonal matrix is bounded by its denominator.
pub proof fn lemma_rot3_entry_bounds(m: Mat3M)
    requires
        rot3_wf(m),
    ensures
        m3_bounded(m, m.den),
{
    assert(-m.den <= m.m00 <= m.den && -m.den <= m.m10 <= m.den && -m.den <= m.m20
        <= m.den) by (nonlinear_arith)
        requires
            m.den > 0,
            m.m00 * m.m00 + m.m10 * m.m10 + m.m20 * m.m20 == m.den * m.den,
    ;
    assert(-m.den <= m.m01 <= m.den && -m.den <= m.m11 <= m.den && -m.den <= m.m21
        <= m.den) by (nonlinear_arith)
        requires
            m.den > 0,
            m.m01 * m.m01 + m.m11 * m.m11 + m.m21 * m.m21 == m.den * m.den,
    ;
    assert(-m.den <= m.m02 <= m.den && -m.den <= m.m12 <= m.den && -m.den <= m.m22
        <= m.den) by (nonlinear_arith)
        requires
            m.den > 0,
            m.m02 * m.m02 + m.m12 * m.m12 + m.m22 * m.m22 == m.den * m.den,
    ;
}

} // verus!
