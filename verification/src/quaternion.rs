//! Quaternions with exact rational components.
//!
//! A unit quaternion denotes a spatial rotation directly: composition is the
//! Hamilton product, the inverse of a unit quaternion is its conjugate (kept
//! as "conjugate divided by the squared magnitude", which also tolerates a
//! non-unit representation), and a vector is rotated by the sandwich product
//! `q * v * conj(q)`.

use vstd::prelude::*;

use crate::matrix::{Mat3, Mat3M};
use crate::vector::{lemma_mul_bound, Vec3, Vec3M};

verus! {

/// Exact value of a quaternion: `(w + x*i + y*j + z*k) / den`.
#[verifier::ext_equal]
pub ghost struct QuatM {
    pub w: int,
    pub x: int,
    pub y: int,
    pub z: int,
    pub den: int,
}

/// The denominator is positive and the quaternion has unit norm.
pub open spec fn quat_wf(q: QuatM) -> bool {
    &&& q.den > 0
    &&& q_norm2(q) == q.den * q.den
}

pub open spec fn q_id() -> QuatM {
    QuatM { w: 1, x: 0, y: 0, z: 0, den: 1 }
}

/// The Hamilton product.
pub open spec fn q_mul(a: QuatM, b: QuatM) -> QuatM {
    QuatM {
        w: a.w * b.w - a.x * b.x - a.y * b.y - a.z * b.z,
        x: a.w * b.x + a.x * b.w + a.y * b.z - a.z * b.y,
        y: a.w * b.y - a.x * b.z + a.y * b.w + a.z * b.x,
        z: a.w * b.z + a.x * b.y - a.y * b.x + a.z * b.w,
        den: a.den * b.den,
    }
}

pub open spec fn q_conj(q: QuatM) -> QuatM {
    QuatM { w: q.w, x: -q.x, y: -q.y, z: -q.z, den: q.den }
}

/// The squared norm of the numerator vector.
pub open spec fn q_norm2(q: QuatM) -> int {
    q.w * q.w + q.x * q.x + q.y * q.y + q.z * q.z
}

/// A vector embedded as a pure quaternion.
pub open spec fn q_of_vec(v: Vec3M) -> QuatM {
    QuatM { w: 0, x: v.x, y: v.y, z: v.z, den: v.den }
}

/// The sandwich product `q * v * conj(q)`: the exact action of the
/// quaternion on a vector (its vector part; for a unit quaternion the scalar
/// part vanishes).
pub open spec fn q_app(q: QuatM, v: Vec3M) -> Vec3M {
    Vec3M {
        x: q_mul(q_mul(q, q_of_vec(v)), q_conj(q)).x,
        y: q_mul(q_mul(q, q_of_vec(v)), q_conj(q)).y,
        z: q_mul(q_mul(q, q_of_vec(v)), q_conj(q)).z,
        den: q_mul(q_mul(q, q_of_vec(v)), q_conj(q)).den,
    }
}

/// `a` and `b` denote the same quaternion (cross-multiplied components).
pub open spec fn quat_eq(a: QuatM, b: QuatM) -> bool {
    &&& a.w * b.den == b.w * a.den
    &&& a.x * b.den == b.x * a.den
    &&& a.y * b.den == b.y * a.den
    &&& a.z * b.den == b.z * a.den
}

/// All components lie in `[-b, b]` and the denominator in `(0, b]`.
pub open spec fn q_bounded(q: QuatM, b: int) -> bool {
    &&& -b <= q.w <= b
    &&& -b <= q.x <= b
    &&& -b <= q.y <= b
    &&& -b <= q.z <= b
    &&& 0 < q.den <= b
}

/// The matrix acting exactly as the quaternion does, over the denominator
/// `q_norm2(q)` (for a unit quaternion, its squared denominator).
pub open spec fn m3_of_quat(q: QuatM) -> Mat3M {
    Mat3M {
        m00: q.w * q.w + q.x * q.x - q.y * q.y - q.z * q.z,
        m01: 2 * (q.x * q.y - q.w * q.z),
        m02: 2 * (q.x * q.z + q.w * q.y),
        m10: 2 * (q.x * q.y + q.w * q.z),
        m11: q.w * q.w - q.x * q.x + q.y * q.y - q.z * q.z,
        m12: 2 * (q.y * q.z - q.w * q.x),
        m20: 2 * (q.x * q.z - q.w * q.y),
        m21: 2 * (q.y * q.z + q.w * q.x),
        m22: q.w * q.w - q.x * q.x - q.y * q.y + q.z * q.z,
        den: q_norm2(q),
    }
}

/// A quaternion with exact rational components.
#[derive(Clone, Copy, PartialEq, Eq, Structural, Debug)]
pub struct Quat {
    pub w: i64,
    pub x: i64,
    pub y: i64,
    pub z: i64,
    pub den: i64,
}

impl View for Quat {
    type V = QuatM;

    open spec fn view(&self) -> QuatM {
        QuatM {
            w: self.w as int,
            x: self.x as int,
            y: self.y as int,
            z: self.z as int,
            den: self.den as int,
        }
    }
}

impl Quat {
    /// The quaternion `(w + x*i + y*j + z*k) / den`.
    pub fn new(w: i64, x: i64, y: i64, z: i64, den: i64) -> (r: Quat)
        requires
            den > 0,
        ensures
            r@ == (QuatM { w: w as int, x: x as int, y: y as int, z: z as int, den: den as int }),
    {
        Quat { w, x, y, z, den }
    }

    /// The identity quaternion: real part one, vector part zero.
    pub fn identity() -> (r: Quat)
        ensures
            r@ == q_id(),
            quat_wf(r@),
    {
        Quat { w: 1, x: 0, y: 0, z: 0, den: 1 }
    }

    /// The composed rotation: `concat(a, b)` applies `b` first, then `a`,
    /// matching the composition convention of the matrix representations.
    pub fn concat(&self, other: &Quat) -> (r: Quat)
        requires
            q_bounded(self@, 0x4000_0000),
            q_bounded(other@, 0x4000_0000),
        ensures
            r@ == q_mul(self@, other@),
    {
        self.mul_q(other)
    }

    /// In-place composition; the result is the one `concat` returns.
    pub fn concat_self(&mut self, other: &Quat)
        requires
            q_bounded(old(self)@, 0x4000_0000),
            q_bounded(other@, 0x4000_0000),
        ensures
            final(self)@ == q_mul(old(self)@, other@),
    {
        let r = self.concat(other);
        *self = r;
    }

    /// In-place inversion; the result is the one `invert` returns.
    pub fn invert_self(&mut self)
        requires
            q_bounded(old(self)@, 0x4000),
            q_norm2(old(self)@) > 0,
        ensures
            final(self)@ == (QuatM {
                w: old(self)@.w * (old(self)@.den * old(self)@.den),
                x: -old(self)@.x * (old(self)@.den * old(self)@.den),
                y: -old(self)@.y * (old(self)@.den * old(self)@.den),
                z: -old(self)@.z * (old(self)@.den * old(self)@.den),
                den: old(self)@.den * q_norm2(old(self)@),
            }),
    {
        let r = self.invert();
        *self = r;
    }

    /// Applies the rotation to a free vector: the sandwich product.
    pub fn rotate_vec(&self, v: &Vec3) -> (r: Vec3)
        requires
            q_bounded(self@, 0x2000),
            crate::vector::vec3_bounded(v@, 0x2000),
        ensures
            r@ == q_app(self@, v@),
    {
        self.mul_v(v)
    }

    /// The Hamilton product `self * other`.
    pub fn mul_q(&self, other: &Quat) -> (r: Quat)
        requires
            q_bounded(self@, 0x4000_0000),
            q_bounded(other@, 0x4000_0000),
        ensures
            r@ == q_mul(self@, other@),
    {
        proof {
            lemma_q_products(self@, other@);
            lemma_q_product_bounds(self@, other@);
        }
        let w: i128 = (self.w as i128) * (other.w as i128) - (self.x as i128) * (other.x as i128)
            - (self.y as i128) * (other.y as i128) - (self.z as i128) * (other.z as i128);
        let x: i128 = (self.w as i128) * (other.x as i128) + (self.x as i128) * (other.w as i128)
            + (self.y as i128) * (other.z as i128) - (self.z as i128) * (other.y as i128);
        let y: i128 = (self.w as i128) * (other.y as i128) - (self.x as i128) * (other.z as i128)
            + (self.y as i128) * (other.w as i128) + (self.z as i128) * (other.x as i128);
        let z: i128 = (self.w as i128) * (other.z as i128) + (self.x as i128) * (other.y as i128)
            - (self.y as i128) * (other.x as i128) + (self.z as i128) * (other.w as i128);
        Quat { w: w as i64, x: x as i64, y: y as i64, z: z as i64, den: self.den * other.den }
    }

    /// The conjugate: the vector part negated.
    pub fn conjugate(&self) -> (r: Quat)
        requires
            q_bounded(self@, 0x4000_0000_0000_0000),
        ensures
            r@ == q_conj(self@),
    {
        Quat { w: self.w, x: -self.x, y: -self.y, z: -self.z, den: self.den }
    }

    /// The squared magnitude, as numerator and denominator.
    pub fn magnitude2(&self) -> (r: (i64, i64))
        requires
            q_bounded(self@, 0x4000_0000),
        ensures
            r.0 == q_norm2(self@),
            r.1 == self@.den * self@.den,
    {
        proof {
            lemma_mul_bound(self@.w, self@.w, 0x4000_0000, 0x4000_0000);
            lemma_mul_bound(self@.x, self@.x, 0x4000_0000, 0x4000_0000);
            lemma_mul_bound(self@.y, self@.y, 0x4000_0000, 0x4000_0000);
            lemma_mul_bound(self@.z, self@.z, 0x4000_0000, 0x4000_0000);
            lemma_mul_bound(self@.den, self@.den, 0x4000_0000, 0x4000_0000);
        }
        let n: i128 = (self.w as i128) * (self.w as i128) + (self.x as i128) * (self.x as i128)
            + (self.y as i128) * (self.y as i128) + (self.z as i128) * (self.z as i128);
        (n as i64, self.den * self.den)
    }

    /// Division by the exact scalar `n/d`.
    pub fn div_s(&self, n: i64, d: i64) -> (r: Quat)
        requires
            q_bounded(self@, 0x4000_0000),
            0 < n <= 0x4000_0000,
            0 < d <= 0x4000_0000,
        ensures
            r@ == (QuatM {
                w: self@.w * d,
                x: self@.x * d,
                y: self@.y * d,
                z: self@.z * d,
                den: self@.den * n,
            }),
    {
        proof {
            lemma_mul_bound(self@.w, d as int, 0x4000_0000, 0x4000_0000);
            lemma_mul_bound(self@.x, d as int, 0x4000_0000, 0x4000_0000);
            lemma_mul_bound(self@.y, d as int, 0x4000_0000, 0x4000_0000);
            lemma_mul_bound(self@.z, d as int, 0x4000_0000, 0x4000_0000);
            lemma_mul_bound(self@.den, n as int, 0x4000_0000, 0x4000_0000);
        }
        Quat { w: self.w * d, x: self.x * d, y: self.y * d, z: self.z * d, den: self.den * n }
    }

    /// The inverse rotation: the conjugate divided by the squared magnitude.
    /// For a unit quaternion this denotes exactly the conjugate; the division
    /// is kept as defensive normalisation for a non-unit representation.
    pub fn invert(&self) -> (r: Quat)
        requires
            q_bounded(self@, 0x4000),
            q_norm2(self@) > 0,
        ensures
            r@ == (QuatM {
                w: self@.w * (self@.den * self@.den),
                x: -self@.x * (self@.den * self@.den),
                y: -self@.y * (self@.den * self@.den),
                z: -self@.z * (self@.den * self@.den),
                den: self@.den * q_norm2(self@),
            }),
    {
        proof {
            lemma_mul_bound(self@.w, self@.w, 0x4000, 0x4000);
            lemma_mul_bound(self@.x, self@.x, 0x4000, 0x4000);
            lemma_mul_bound(self@.y, self@.y, 0x4000, 0x4000);
            lemma_mul_bound(self@.z, self@.z, 0x4000, 0x4000);
            lemma_mul_bound(self@.den, self@.den, 0x4000, 0x4000);
            assert(self@.den * self@.den > 0) by (nonlinear_arith)
                requires
                    self@.den > 0,
            ;
        }
        let (n, d) = self.magnitude2();
        self.conjugate().div_s(n, d)
    }

    /// Rotates a vector by the sandwich product `q * v * conj(q)`.
    pub fn mul_v(&self, v: &Vec3) -> (r: Vec3)
        requires
            q_bounded(self@, 0x2000),
            crate::vector::vec3_bounded(v@, 0x2000),
        ensures
            r@ == q_app(self@, v@),
    {
        let qv = Quat { w: 0, x: v.x, y: v.y, z: v.z, den: v.den };
        let t = self.mul_q(&qv);
        proof {
            lemma_q_products_small(self@, qv@);
        }
        let r = t.mul_q(&self.conjugate());
        Vec3 { x: r.x, y: r.y, z: r.z, den: r.den }
    }

    /// The rotation as a dense 3×3 matrix: the standard quaternion-to-matrix
    /// formula, over the squared-magnitude denominator.
    pub fn to_mat3(&self) -> (r: Mat3)
        requires
            q_bounded(self@, 0x4000),
            q_norm2(self@) > 0,
        ensures
            r@ == m3_of_quat(self@),
    {
        proof {
            lemma_mul_bound(self@.w, self@.w, 0x4000, 0x4000);
            lemma_mul_bound(self@.x, self@.x, 0x4000, 0x4000);
            lemma_mul_bound(self@.y, self@.y, 0x4000, 0x4000);
            lemma_mul_bound(self@.z, self@.z, 0x4000, 0x4000);
            lemma_mul_bound(self@.w, self@.x, 0x4000, 0x4000);
            lemma_mul_bound(self@.w, self@.y, 0x4000, 0x4000);
            lemma_mul_bound(self@.w, self@.z, 0x4000, 0x4000);
            lemma_mul_bound(self@.x, self@.y, 0x4000, 0x4000);
            lemma_mul_bound(self@.x, self@.z, 0x4000, 0x4000);
            lemma_mul_bound(self@.y, self@.z, 0x4000, 0x4000);
        }
        let ww: i128 = (self.w as i128) * (self.w as i128);
        let xx: i128 = (self.x as i128) * (self.x as i128);
        let yy: i128 = (self.y as i128) * (self.y as i128);
        let zz: i128 = (self.z as i128) * (self.z as i128);
        let wx: i128 = (self.w as i128) * (self.x as i128);
        let wy: i128 = (self.w as i128) * (self.y as i128);
        let wz: i128 = (self.w as i128) * (self.z as i128);
        let xy: i128 = (self.x as i128) * (self.y as i128);
        let xz: i128 = (self.x as i128) * (self.z as i128);
        let yz: i128 = (self.y as i128) * (self.z as i128);
        Mat3 {
            m00: (ww + xx - yy - zz) as i64,
            m01: (2 * (xy - wz)) as i64,
            m02: (2 * (xz + wy)) as i64,
            m10: (2 * (xy + wz)) as i64,
            m11: (ww - xx + yy - zz) as i64,
            m12: (2 * (yz - wx)) as i64,
            m20: (2 * (xz - wy)) as i64,
            m21: (2 * (yz + wx)) as i64,
            m22: (ww - xx - yy + zz) as i64,
            den: (ww + xx + yy + zz) as i64,
        }
    }

    /// Whether the two quaternions denote exactly the same value.
    pub fn approx_eq(&self, other: &Quat) -> (r: bool)
        ensures
            r == quat_eq(self@, other@),
    {
        proof {
            lemma_mul_bound(self@.w, other@.den, 0x8000_0000_0000_0000, 0x8000_0000_0000_0000);
            lemma_mul_bound(other@.w, self@.den, 0x8000_0000_0000_0000, 0x8000_0000_0000_0000);
            lemma_mul_bound(self@.x, other@.den, 0x8000_0000_0000_0000, 0x8000_0000_0000_0000);
            lemma_mul_bound(other@.x, self@.den, 0x8000_0000_0000_0000, 0x8000_0000_0000_0000);
            lemma_mul_bound(self@.y, other@.den, 0x8000_0000_0000_0000, 0x8000_0000_0000_0000);
            lemma_mul_bound(other@.y, self@.den, 0x8000_0000_0000_0000, 0x8000_0000_0000_0000);
            lemma_mul_bound(self@.z, other@.den, 0x8000_0000_0000_0000, 0x8000_0000_0000_0000);
            lemma_mul_bound(other@.z, self@.den, 0x8000_0000_0000_0000, 0x8000_0000_0000_0000);
        }
        let da = self.den as i128;
        let db = other.den as i128;
        (self.w as i128) * db == (other.w as i128) * da
            && (self.x as i128) * db == (other.x as i128) * da
            && (self.y as i128) * db == (other.y as i128) * da
            && (self.z as i128) * db == (other.z as i128) * da
    }
}

/// All component products of two bounded quaternions are bounded.
proof fn lemma_q_products(a: QuatM, b: QuatM)
    requires
        q_bounded(a, 0x4000_0000),
        q_bounded(b, 0x4000_0000),
    ensures
        q_bounded(q_mul(a, b), 0x4000_0000_0000_0000),
{
    lemma_mul_bound(a.w, b.w, 0x4000_0000, 0x4000_0000);
    lemma_mul_bound(a.w, b.x, 0x4000_0000, 0x4000_0000);
    lemma_mul_bound(a.w, b.y, 0x4000_0000, 0x4000_0000);
    lemma_mul_bound(a.w, b.z, 0x4000_0000, 0x4000_0000);
    lemma_mul_bound(a.x, b.w, 0x4000_0000, 0x4000_0000);
    lemma_mul_bound(a.x, b.x, 0x4000_0000, 0x4000_0000);
    lemma_mul_bound(a.x, b.y, 0x4000_0000, 0x4000_0000);
    lemma_mul_bound(a.x, b.z, 0x4000_0000, 0x4000_0000);
    lemma_mul_bound(a.y, b.w, 0x4000_0000, 0x4000_0000);
    lemma_mul_bound(a.y, b.x, 0x4000_0000, 0x4000_0000);
    lemma_mul_bound(a.y, b.y, 0x4000_0000, 0x4000_0000);
    lemma_mul_bound(a.y, b.z, 0x4000_0000, 0x4000_0000);
    lemma_mul_bound(a.z, b.w, 0x4000_0000, 0x4000_0000);
    lemma_mul_bound(a.z, b.x, 0x4000_0000, 0x4000_0000);
    lemma_mul_bound(a.z, b.y, 0x4000_0000, 0x4000_0000);
    lemma_mul_bound(a.z, b.z, 0x4000_0000, 0x4000_0000);
    lemma_mul_bound(a.den, b.den, 0x4000_0000, 0x4000_0000);
    assert(a.den * b.den > 0) by (nonlinear_arith)
        requires
            a.den > 0,
            b.den > 0,
    ;
}

/// Each pairwise component product of two bounded quaternions is bounded.
proof fn lemma_q_product_bounds(a: QuatM, b: QuatM)
    requires
        q_bounded(a, 0x4000_0000),
        q_bounded(b, 0x4000_0000),
    ensures
        -0x1000_0000_0000_0000 <= a.w * b.w <= 0x1000_0000_0000_0000,
        -0x1000_0000_0000_0000 <= a.w * b.x <= 0x1000_0000_0000_0000,
        -0x1000_0000_0000_0000 <= a.w * b.y <= 0x1000_0000_0000_0000,
        -0x1000_0000_0000_0000 <= a.w * b.z <= 0x1000_0000_0000_0000,
        -0x1000_0000_0000_0000 <= a.x * b.w <= 0x1000_0000_0000_0000,
        -0x1000_0000_0000_0000 <= a.x * b.x <= 0x1000_0000_0000_0000,
        -0x1000_0000_0000_0000 <= a.x * b.y <= 0x1000_0000_0000_0000,
        -0x1000_0000_0000_0000 <= a.x * b.z <= 0x1000_0000_0000_0000,
        -0x1000_0000_0000_0000 <= a.y * b.w <= 0x1000_0000_0000_0000,
        -0x1000_0000_0000_0000 <= a.y * b.x <= 0x1000_0000_0000_0000,
        -0x1000_0000_0000_0000 <= a.y * b.y <= 0x1000_0000_0000_0000,
        -0x1000_0000_0000_0000 <= a.y * b.z <= 0x1000_0000_0000_0000,
        -0x1000_0000_0000_0000 <= a.z * b.w <= 0x1000_0000_0000_0000,
        -0x1000_0000_0000_0000 <= a.z * b.x <= 0x1000_0000_0000_0000,
        -0x1000_0000_0000_0000 <= a.z * b.y <= 0x1000_0000_0000_0000,
        -0x1000_0000_0000_0000 <= a.z * b.z <= 0x1000_0000_0000_0000,
{
    lemma_mul_bound(a.w, b.w, 0x4000_0000, 0x4000_0000);
    lemma_mul_bound(a.w, b.x, 0x4000_0000, 0x4000_0000);
    lemma_mul_bound(a.w, b.y, 0x4000_0000, 0x4000_0000);
    lemma_mul_bound(a.w, b.z, 0x4000_0000, 0x4000_0000);
    lemma_mul_bound(a.x, b.w, 0x4000_0000, 0x4000_0000);
    lemma_mul_bound(a.x, b.x, 0x4000_0000, 0x4000_0000);
    lemma_mul_bound(a.x, b.y, 0x4000_0000, 0x4000_0000);
    lemma_mul_bound(a.x, b.z, 0x4000_0000, 0x4000_0000);
    lemma_mul_bound(a.y, b.w, 0x4000_0000, 0x4000_0000);
    lemma_mul_bound(a.y, b.x, 0x4000_0000, 0x4000_0000);
    lemma_mul_bound(a.y, b.y, 0x4000_0000, 0x4000_0000);
    lemma_mul_bound(a.y, b.z, 0x4000_0000, 0x4000_0000);
    lemma_mul_bound(a.z, b.w, 0x4000_0000, 0x4000_0000);
    lemma_mul_bound(a.z, b.x, 0x4000_0000, 0x4000_0000);
    lemma_mul_bound(a.z, b.y, 0x4000_0000, 0x4000_0000);
    lemma_mul_bound(a.z, b.z, 0x4000_0000, 0x4000_0000);
}

/// Component products of two small quaternions stay small.
proof fn lemma_q_products_small(a: QuatM, b: QuatM)
    requires
        q_bounded(a, 0x2000),
        q_bounded(b, 0x2000),
    ensures
        q_bounded(q_mul(a, b), 0x4000_0000),
{
    lemma_mul_bound(a.w, b.w, 0x2000, 0x2000);
    lemma_mul_bound(a.w, b.x, 0x2000, 0x2000);
    lemma_mul_bound(a.w, b.y, 0x2000, 0x2000);
    lemma_mul_bound(a.w, b.z, 0x2000, 0x2000);
    lemma_mul_bound(a.x, b.w, 0x2000, 0x2000);
    lemma_mul_bound(a.x, b.x, 0x2000, 0x2000);
    lemma_mul_bound(a.x, b.y, 0x2000, 0x2000);
    lemma_mul_bound(a.x, b.z, 0x2000, 0x2000);
    lemma_mul_bound(a.y, b.w, 0x2000, 0x2000);
    lemma_mul_bound(a.y, b.x, 0x2000, 0x2000);
    lemma_mul_bound(a.y, b.y, 0x2000, 0x2000);
    lemma_mul_bound(a.y, b.z, 0x2000, 0x2000);
    lemma_mul_bound(a.z, b.w, 0x2000, 0x2000);
    lemma_mul_bound(a.z, b.x, 0x2000, 0x2000);
    lemma_mul_bound(a.z, b.y, 0x2000, 0x2000);
    lemma_mul_bound(a.z, b.z, 0x2000, 0x2000);
    lemma_mul_bound(a.den, b.den, 0x2000, 0x2000);
    assert(a.den * b.den > 0) by (nonlinear_arith)
        requires
            a.den > 0,
            b.den > 0,
    ;
}

/// Identity law: the identity quaternion is a two-sided unit for the
/// Hamilton product.
pub proof fn lemma_quat_identity_law(q: QuatM)
    ensures
        q_mul(q_id(), q) == q,
        q_mul(q, q_id()) == q,
{
    assert(1 * q.w - 0 * q.x - 0 * q.y - 0 * q.z == q.w) by (nonlinear_arith);
    assert(1 * q.x + 0 * q.w + 0 * q.z - 0 * q.y == q.x) by (nonlinear_arith);
    assert(1 * q.y - 0 * q.z + 0 * q.w + 0 * q.x == q.y) by (nonlinear_arith);
    assert(1 * q.z + 0 * q.y - 0 * q.x + 0 * q.w == q.z) by (nonlinear_arith);
    assert(1 * q.den == q.den) by (nonlinear_arith);
    assert(q.w * 1 - q.x * 0 - q.y * 0 - q.z * 0 == q.w) by (nonlinear_arith);
    assert(q.w * 0 + q.x * 1 + q.y * 0 - q.z * 0 == q.x) by (nonlinear_arith);
    assert(q.w * 0 - q.x * 0 + q.y * 1 + q.z * 0 == q.y) by (nonlinear_arith);
    assert(q.w * 0 + q.x * 0 - q.y * 0 + q.z * 1 == q.z) by (nonlinear_arith);
    assert(q.den * 1 == q.den) by (nonlinear_arith);
    assert(q_mul(q_id(), q) =~= q);
    assert(q_mul(q, q_id()) =~= q);
}

/// Inverse law: a quaternion times its conjugate is its squared norm, a
/// scalar; for a unit quaternion that scalar denotes exactly the identity
/// rotation.
pub proof fn lemma_quat_inverse_law(q: QuatM)
    ensures
        q_mul(q, q_conj(q)) == (QuatM { w: q_norm2(q), x: 0, y: 0, z: 0, den: q.den * q.den }),
        q_mul(q_conj(q), q) == (QuatM { w: q_norm2(q), x: 0, y: 0, z: 0, den: q.den * q.den }),
        quat_wf(q) ==> quat_eq(q_mul(q, q_conj(q)), q_id()),
{
    assert(q.w * q.w - q.x * (-q.x) - q.y * (-q.y) - q.z * (-q.z) == q_norm2(q))
        by (nonlinear_arith);
    assert(q.w * (-q.x) + q.x * q.w + q.y * (-q.z) - q.z * (-q.y) == 0) by (nonlinear_arith);
    assert(q.w * (-q.y) - q.x * (-q.z) + q.y * q.w + q.z * (-q.x) == 0) by (nonlinear_arith);
    assert(q.w * (-q.z) + q.x * (-q.y) - q.y * (-q.x) + q.z * q.w == 0) by (nonlinear_arith);
    assert(q.w * q.w - (-q.x) * q.x - (-q.y) * q.y - (-q.z) * q.z == q_norm2(q))
        by (nonlinear_arith);
    assert(q.w * q.x + (-q.x) * q.w + (-q.y) * q.z - (-q.z) * q.y == 0) by (nonlinear_arith);
    assert(q.w * q.y - (-q.x) * q.z + (-q.y) * q.w + (-q.z) * q.x == 0) by (nonlinear_arith);
    assert(q.w * q.z + (-q.x) * q.y - (-q.y) * q.x + (-q.z) * q.w == 0) by (nonlinear_arith);
    assert(q_mul(q, q_conj(q)) =~= (QuatM {
        w: q_norm2(q),
        x: 0,
        y: 0,
        z: 0,
        den: q.den * q.den,
    }));
    assert(q_mul(q_conj(q), q) =~= (QuatM {
        w: q_norm2(q),
        x: 0,
        y: 0,
        z: 0,
        den: q.den * q.den,
    }));
}


/// A four-term signed sum distributed over a right factor.
proof fn lemma_qd4(p: int, q: int, r: int, s: int, x: int)
    ensures
        (p - q - r - s) * x == p * x - q * x - r * x - s * x,
        (p + q + r - s) * x == p * x + q * x + r * x - s * x,
        (p - q + r + s) * x == p * x - q * x + r * x + s * x,
        (p + q - r + s) * x == p * x + q * x - r * x + s * x,
{
    assert((p - q - r - s) * x == p * x - q * x - r * x - s * x && (p + q + r - s) * x == p * x + q
        * x + r * x - s * x && (p - q + r + s) * x == p * x - q * x + r * x + s * x && (p + q - r
        + s) * x == p * x + q * x - r * x + s * x) by (nonlinear_arith);
}

/// A left factor distributed over a four-term signed sum.
proof fn lemma_qd4l(a: int, p: int, q: int, r: int, s: int)
    ensures
        a * (p - q - r - s) == a * p - a * q - a * r - a * s,
        a * (p + q + r - s) == a * p + a * q + a * r - a * s,
        a * (p - q + r + s) == a * p - a * q + a * r + a * s,
        a * (p + q - r + s) == a * p + a * q - a * r + a * s,
{
    assert(a * (p - q - r - s) == a * p - a * q - a * r - a * s && a * (p + q + r - s) == a * p + a
        * q + a * r - a * s && a * (p - q + r + s) == a * p - a * q + a * r + a * s && a * (p + q
        - r + s) == a * p + a * q - a * r + a * s) by (nonlinear_arith);
}

/// Multiplication is associative.
proof fn lemma_q_assoc3(x: int, y: int, z: int)
    ensures
        (x * y) * z == x * (y * z),
{
    assert((x * y) * z == x * (y * z)) by (nonlinear_arith);
}

/// Associativity law: the Hamilton product is associative, exactly.
pub proof fn lemma_quat_assoc_law(a: QuatM, b: QuatM, c: QuatM)
    ensures
        q_mul(q_mul(a, b), c) == q_mul(a, q_mul(b, c)),
{
    lemma_qd4(a.w * b.w, a.x * b.x, a.y * b.y, a.z * b.z, c.w);
    lemma_qd4(a.w * b.w, a.x * b.x, a.y * b.y, a.z * b.z, c.x);
    lemma_qd4(a.w * b.w, a.x * b.x, a.y * b.y, a.z * b.z, c.y);
    lemma_qd4(a.w * b.w, a.x * b.x, a.y * b.y, a.z * b.z, c.z);
    lemma_qd4(a.w * b.x, a.x * b.w, a.y * b.z, a.z * b.y, c.w);
    lemma_qd4(a.w * b.x, a.x * b.w, a.y * b.z, a.z * b.y, c.x);
    lemma_qd4(a.w * b.x, a.x * b.w, a.y * b.z, a.z * b.y, c.y);
    lemma_qd4(a.w * b.x, a.x * b.w, a.y * b.z, a.z * b.y, c.z);
    lemma_qd4(a.w * b.y, a.x * b.z, a.y * b.w, a.z * b.x, c.w);
    lemma_qd4(a.w * b.y, a.x * b.z, a.y * b.w, a.z * b.x, c.x);
    lemma_qd4(a.w * b.y, a.x * b.z, a.y * b.w, a.z * b.x, c.y);
    lemma_qd4(a.w * b.y, a.x * b.z, a.y * b.w, a.z * b.x, c.z);
    lemma_qd4(a.w * b.z, a.x * b.y, a.y * b.x, a.z * b.w, c.w);
    lemma_qd4(a.w * b.z, a.x * b.y, a.y * b.x, a.z * b.w, c.x);
    lemma_qd4(a.w * b.z, a.x * b.y, a.y * b.x, a.z * b.w, c.y);
    lemma_qd4(a.w * b.z, a.x * b.y, a.y * b.x, a.z * b.w, c.z);
    lemma_q_assoc3(a.w, b.w, c.w);
    lemma_q_assoc3(a.w, b.w, c.x);
    lemma_q_assoc3(a.w, b.w, c.y);
    lemma_q_assoc3(a.w, b.w, c.z);
    lemma_q_assoc3(a.w, b.x, c.w);
    lemma_q_assoc3(a.w, b.x, c.x);
    lemma_q_assoc3(a.w, b.x, c.y);
    lemma_q_assoc3(a.w, b.x, c.z);
    lemma_q_assoc3(a.w, b.y, c.w);
    lemma_q_assoc3(a.w, b.y, c.x);
    lemma_q_assoc3(a.w, b.y, c.y);
    lemma_q_assoc3(a.w, b.y, c.z);
    lemma_q_assoc3(a.w, b.z, c.w);
    lemma_q_assoc3(a.w, b.z, c.x);
    lemma_q_assoc3(a.w, b.z, c.y);
    lemma_q_assoc3(a.w, b.z, c.z);
    lemma_q_assoc3(a.x, b.w, c.w);
    lemma_q_assoc3(a.x, b.w, c.x);
    lemma_q_assoc3(a.x, b.w, c.y);
    lemma_q_assoc3(a.x, b.w, c.z);
    lemma_q_assoc3(a.x, b.x, c.w);
    lemma_q_assoc3(a.x, b.x, c.x);
    lemma_q_assoc3(a.x, b.x, c.y);
    lemma_q_assoc3(a.x, b.x, c.z);
    lemma_q_assoc3(a.x, b.y, c.w);
    lemma_q_assoc3(a.x, b.y, c.x);
    lemma_q_assoc3(a.x, b.y, c.y);
    lemma_q_assoc3(a.x, b.y, c.z);
    lemma_q_assoc3(a.x, b.z, c.w);
    lemma_q_assoc3(a.x, b.z, c.x);
    lemma_q_assoc3(a.x, b.z, c.y);
    lemma_q_assoc3(a.x, b.z, c.z);
    lemma_q_assoc3(a.y, b.w, c.w);
    lemma_q_assoc3(a.y, b.w, c.x);
    lemma_q_assoc3(a.y, b.w, c.y);
    lemma_q_assoc3(a.y, b.w, c.z);
    lemma_q_assoc3(a.y, b.x, c.w);
    lemma_q_assoc3(a.y, b.x, c.x);
    lemma_q_assoc3(a.y, b.x, c.y);
    lemma_q_assoc3(a.y, b.x, c.z);
    lemma_q_assoc3(a.y, b.y, c.w);
    lemma_q_assoc3(a.y, b.y, c.x);
    lemma_q_assoc3(a.y, b.y, c.y);
    lemma_q_assoc3(a.y, b.y, c.z);
    lemma_q_assoc3(a.y, b.z, c.w);
    lemma_q_assoc3(a.y, b.z, c.x);
    lemma_q_assoc3(a.y, b.z, c.y);
    lemma_q_assoc3(a.y, b.z, c.z);
    lemma_q_assoc3(a.z, b.w, c.w);
    lemma_q_assoc3(a.z, b.w, c.x);
    lemma_q_assoc3(a.z, b.w, c.y);
    lemma_q_assoc3(a.z, b.w, c.z);
    lemma_q_assoc3(a.z, b.x, c.w);
    lemma_q_assoc3(a.z, b.x, c.x);
    lemma_q_assoc3(a.z, b.x, c.y);
    lemma_q_assoc3(a.z, b.x, c.z);
    lemma_q_assoc3(a.z, b.y, c.w);
    lemma_q_assoc3(a.z, b.y, c.x);
    lemma_q_assoc3(a.z, b.y, c.y);
    lemma_q_assoc3(a.z, b.y, c.z);
    lemma_q_assoc3(a.z, b.z, c.w);
    lemma_q_assoc3(a.z, b.z, c.x);
    lemma_q_assoc3(a.z, b.z, c.y);
    lemma_q_assoc3(a.z, b.z, c.z);
    lemma_qd4l(a.w, b.w * c.w, b.x * c.x, b.y * c.y, b.z * c.z);
    lemma_qd4l(a.w, b.w * c.x, b.x * c.w, b.y * c.z, b.z * c.y);
    lemma_qd4l(a.w, b.w * c.y, b.x * c.z, b.y * c.w, b.z * c.x);
    lemma_qd4l(a.w, b.w * c.z, b.x * c.y, b.y * c.x, b.z * c.w);
    lemma_qd4l(a.x, b.w * c.w, b.x * c.x, b.y * c.y, b.z * c.z);
    lemma_qd4l(a.x, b.w * c.x, b.x * c.w, b.y * c.z, b.z * c.y);
    lemma_qd4l(a.x, b.w * c.y, b.x * c.z, b.y * c.w, b.z * c.x);
    lemma_qd4l(a.x, b.w * c.z, b.x * c.y, b.y * c.x, b.z * c.w);
    lemma_qd4l(a.y, b.w * c.w, b.x * c.x, b.y * c.y, b.z * c.z);
    lemma_qd4l(a.y, b.w * c.x, b.x * c.w, b.y * c.z, b.z * c.y);
    lemma_qd4l(a.y, b.w * c.y, b.x * c.z, b.y * c.w, b.z * c.x);
    lemma_qd4l(a.y, b.w * c.z, b.x * c.y, b.y * c.x, b.z * c.w);
    lemma_qd4l(a.z, b.w * c.w, b.x * c.x, b.y * c.y, b.z * c.z);
    lemma_qd4l(a.z, b.w * c.x, b.x * c.w, b.y * c.z, b.z * c.y);
    lemma_qd4l(a.z, b.w * c.y, b.x * c.z, b.y * c.w, b.z * c.x);
    lemma_qd4l(a.z, b.w * c.z, b.x * c.y, b.y * c.x, b.z * c.w);
    lemma_q_assoc3(a.den, b.den, c.den);
    assert(q_mul(q_mul(a, b), c) =~= q_mul(a, q_mul(b, c)));
}

/// The identity quaternion acts as the identity on every vector.
pub proof fn lemma_quat_app_identity(v: Vec3M)
    ensures
        q_app(q_id(), v) == v,
{
    lemma_quat_identity_law(q_of_vec(v));
    assert(q_conj(q_id()) =~= q_id());
    assert(q_app(q_id(), v) =~= v);
}

} // verus!
