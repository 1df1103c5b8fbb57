//! Rigid rotations behind one shared contract.
//!
//! [`Rotation2`] is the generic rotation contract: an identity, a primitive
//! `rotate_vec`, composition (`concat`), inversion (`invert`), their in-place
//! variants, and exact equality tests.  Its contract is semantic: every
//! operation says what the result does to an arbitrary vector, so the laws
//! "identity maps every vector to itself", "`concat(a, b)` applies `b` first,
//! then `a`" and "`invert` undoes the rotation" hold of every conforming
//! representation, not of one implementation.
//!
//! [`Basis2`] is the canonical representation: an orthogonality-constrained
//! 2×2 matrix.  The derived operations [`rotate_point2`] and [`rotate_ray2`]
//! are written once, over any implementation of the contract, so they cannot
//! drift from the primitive `rotate_vec`.

use vstd::prelude::*;

use crate::angle::{Angle, AngleM, angle_wf, lemma_angle_bounds};
use crate::matrix::{
    Mat2, Mat2M, m2_id, m2_mul, m2_mul_v, m2_transpose, mat2_eq, mat2_close, rot2_wf, m2_bounded,
    lemma_m2_mul_id, lemma_m2_mul_v_id, lemma_m2_mul_assoc, lemma_m2_mul_v_assoc, lemma_rot2_mul,
    lemma_rot2_transpose, lemma_rot2_inverse, lemma_rot2_entry_bounds, lemma_rot2_orthogonal,
    lemma_scale_swap, Mat3, Mat3M, m3_id, m3_mul, m3_mul_v, m3_transpose, mat3_eq, mat3_close,
    rot3_wf, m3_bounded, lemma_m3_mul_id, lemma_m3_mul_v_id, lemma_m3_mul_assoc,
    lemma_m3_mul_v_assoc, lemma_rot3_mul, lemma_rot3_transpose, lemma_rot3_inverse,
    lemma_rot3_entry_bounds, m3_det,
};
use crate::vector::{Vec2, Vec2M, vec2_eq, vec2_bounded, Point2, Ray2, Vec3, Vec3M, vec3_eq,
    vec3_bounded, Point3, Ray3};

verus! {

/// The generic contract of a plane rotation.
///
/// `app` is the exact action of the rotation on a vector value; `wf` is the
/// representation's internal invariant.  `fits_vec` and `fits_concat` are the
/// machine-size bounds under which the exact integer arithmetic of an
/// operation stays within 64 bits; they never restrict which rotations a
/// representation denotes.
pub trait Rotation2: Sized {
    /// The representation invariant.
    spec fn wf(self) -> bool;

    /// The exact action of this rotation on a vector value.
    spec fn app(self, v: Vec2M) -> Vec2M;

    /// The representation is small enough to rotate the bounded vector `v`.
    spec fn fits_vec(self, v: Vec2M) -> bool;

    /// Both representations are small enough to compose or compare.
    spec fn fits_concat(self, other: Self) -> bool;

    /// Exact equality of the two underlying representations.
    spec fn rep_eq(self, other: Self) -> bool;

    /// The denominator of the exact representation: the scale at which it
    /// holds the rotation.  The identity has denominator one and composition
    /// multiplies denominators, so a caller can bound the representations it
    /// builds and meet the `fits_*` preconditions of follow-on calls.
    spec fn den(self) -> int;

    /// The exact representation that `invert` and `invert_self` return.
    spec fn inv_rep(self) -> Self;

    /// The rotation that maps every vector to itself.
    fn identity() -> (r: Self)
        ensures
            r.wf(),
            r.den() == 1,
            forall|v: Vec2M| #[trigger] r.app(v) == v,
    ;

    /// Applies the rotation to a free vector.
    fn rotate_vec(&self, v: &Vec2) -> (r: Vec2)
        requires
            self.wf(),
            self.fits_vec(v@),
        ensures
            r@ == self.app(v@),
            r@.den == self.den() * v@.den,
    ;

    /// The composed rotation: `concat(a, b)` applies `b` first, then `a`,
    /// for every representation alike.
    fn concat(&self, other: &Self) -> (r: Self)
        requires
            self.wf(),
            other.wf(),
            self.fits_concat(*other),
        ensures
            r.wf(),
            r.den() == self.den() * other.den(),
            forall|v: Vec2M| #[trigger] r.app(v) == self.app(other.app(v)),
    ;

    /// The rotation that undoes this one.
    fn invert(&self) -> (r: Self)
        requires
            self.wf(),
        ensures
            r.wf(),
            r == self.inv_rep(),
            forall|v: Vec2M| vec2_eq(#[trigger] r.app(self.app(v)), v),
            forall|v: Vec2M| vec2_eq(#[trigger] self.app(r.app(v)), v),
    ;

    /// In-place composition; the result is the one `concat` returns.
    fn concat_self(&mut self, other: &Self)
        requires
            old(self).wf(),
            other.wf(),
            old(self).fits_concat(*other),
        ensures
            final(self).wf(),
            final(self).den() == old(self).den() * other.den(),
            forall|v: Vec2M| #[trigger] final(self).app(v) == old(self).app(other.app(v)),
    ;

    /// In-place inversion; the result is the one `invert` returns.
    fn invert_self(&mut self)
        requires
            old(self).wf(),
        ensures
            final(self).wf(),
            *final(self) == old(self).inv_rep(),
            forall|v: Vec2M| vec2_eq(#[trigger] final(self).app(old(self).app(v)), v),
            forall|v: Vec2M| vec2_eq(#[trigger] old(self).app(final(self).app(v)), v),
    ;

    /// Whether the two rotations have exactly equal representations.  With
    /// exact rational coordinates no rounding slack is needed, so this is
    /// the approximate-equality test at the default (zero) tolerance.
    fn approx_eq(&self, other: &Self) -> (r: bool)
        ensures
            r == self.rep_eq(*other),
    ;

    /// The default comparison tolerance: zero, as numerator and denominator.
    fn approx_epsilon() -> (r: (i64, i64))
        ensures
            r.0 == 0,
            r.1 == 1,
    ;

    /// Small denominators meet the composition bound.
    proof fn fits_concat_from_den(self, other: Self)
        requires
            0 < self.den() <= 0x4000_0000,
            0 < other.den() <= 0x4000_0000,
        ensures
            self.fits_concat(other),
    ;

    /// A small denominator and a bounded vector meet the rotation bound.
    proof fn fits_vec_from_den(self, v: Vec2M)
        requires
            0 < self.den() <= 0x4000_0000,
            vec2_bounded(v, 0x4000_0000),
        ensures
            self.fits_vec(v),
    ;

    /// The rotation as a dense 2×2 matrix that acts exactly as it does.
    fn to_mat2(&self) -> (r: Mat2)
        requires
            self.wf(),
        ensures
            rot2_wf(r@),
            r@.den == self.den(),
            forall|v: Vec2M| #[trigger] m2_mul_v(r@, v) == self.app(v),
    ;

    /// The rotation in the canonical matrix representation.
    fn to_rot2(&self) -> (r: Basis2)
        requires
            self.wf(),
        ensures
            rot2_wf(r@),
            r@.den == self.den(),
            forall|v: Vec2M| #[trigger] m2_mul_v(r@, v) == self.app(v),
    ;
}

/// Applies a rotation to a point: the point is read as the vector from the
/// origin, rotated by the primitive `rotate_vec`, and rebuilt as a point.
/// This derived operation is written once for every representation.
pub fn rotate_point2<R: Rotation2>(r: &R, p: &Point2) -> (q: Point2)
    requires
        r.wf(),
        r.fits_vec(p@),
    ensures
        q@ == r.app(p@),
{
    Point2::from_vec(&r.rotate_vec(&p.to_vec()))
}

/// Applies a rotation to a ray: the origin is kept exactly as it is and only
/// the direction vector is rotated.
pub fn rotate_ray2<R: Rotation2>(r: &R, ray: &Ray2) -> (s: Ray2)
    requires
        r.wf(),
        r.fits_vec(ray.direction@),
    ensures
        s.origin == ray.origin,
        s.direction@ == r.app(ray.direction@),
{
    Ray2::new(ray.origin, r.rotate_vec(&ray.direction))
}

/// A two-dimensional rotation matrix.
///
/// The wrapped matrix is guaranteed orthogonal with determinant `+1`: the
/// only exposed constructors establish that invariant and the only exposed
/// operations preserve it, so no caller can turn a `Basis2` into a
/// non-rotation.
#[derive(Clone, Copy, PartialEq, Eq, Structural, Debug)]
pub struct Basis2 {
    mat: Mat2,
}

impl View for Basis2 {
    type V = Mat2M;

    closed spec fn view(&self) -> Mat2M {
        self.mat@
    }
}

impl Basis2 {
    /// A read-only view of the wrapped matrix.
    pub fn as_mat2(&self) -> (r: &Mat2)
        ensures
            r@ == self@,
    {
        &self.mat
    }

    /// The rotation by the given angle, counter-clockwise.
    pub fn from_angle(theta: &Angle) -> (r: Basis2)
        requires
            angle_wf(theta@),
        ensures
            rot2_wf(r@),
            r@ == (Mat2M {
                m00: theta@.c,
                m01: -theta@.s,
                m10: theta@.s,
                m11: theta@.c,
                den: theta@.den,
            }),
    {
        proof {
            lemma_angle_bounds(theta@);
        }
        Basis2 {
            mat: Mat2 {
                m00: theta.cos,
                m01: -theta.sin,
                m10: theta.sin,
                m11: theta.cos,
                den: theta.den,
            },
        }
    }

    /// Whether every entry of the two rotations differs by at most `en/ed`.
    pub fn approx_eq_eps(&self, other: &Basis2, en: i64, ed: i64) -> (r: bool)
        requires
            rot2_wf(self@),
            rot2_wf(other@),
            self@.den <= 0x4000_0000,
            other@.den <= 0x4000_0000,
            0 <= en <= 0x4000_0000,
            0 < ed <= 0x4000_0000,
        ensures
            r == mat2_close(self@, other@, en as int, ed as int),
    {
        proof {
            lemma_rot2_entry_bounds(self@);
            lemma_rot2_entry_bounds(other@);
        }
        self.mat.approx_eq_eps(&other.mat, en, ed)
    }
}

impl Rotation2 for Basis2 {
    open spec fn wf(self) -> bool {
        rot2_wf(self@)
    }

    open spec fn app(self, v: Vec2M) -> Vec2M {
        m2_mul_v(self@, v)
    }

    open spec fn fits_vec(self, v: Vec2M) -> bool {
        self@.den <= 0x4000_0000 && vec2_bounded(v, 0x4000_0000)
    }

    open spec fn fits_concat(self, other: Self) -> bool {
        self@.den <= 0x4000_0000 && other@.den <= 0x4000_0000
    }

    open spec fn rep_eq(self, other: Self) -> bool {
        mat2_eq(self@, other@)
    }

    open spec fn den(self) -> int {
        self@.den
    }

    closed spec fn inv_rep(self) -> Basis2 {
        Basis2 {
            mat: Mat2 {
                m00: self.mat.m00,
                m01: self.mat.m10,
                m10: self.mat.m01,
                m11: self.mat.m11,
                den: self.mat.den,
            },
        }
    }

    proof fn fits_concat_from_den(self, other: Basis2) {
    }

    proof fn fits_vec_from_den(self, v: Vec2M) {
    }

    fn identity() -> (r: Basis2) {
        let r = Basis2 { mat: Mat2::identity() };
        proof {
            assert forall|v: Vec2M| #[trigger] r.app(v) == v by {
                lemma_m2_mul_v_id(v);
            }
        }
        r
    }

    fn rotate_vec(&self, v: &Vec2) -> (r: Vec2) {
        proof {
            lemma_rot2_entry_bounds(self@);
        }
        self.mat.mul_v(v)
    }

    fn concat(&self, other: &Basis2) -> (r: Basis2) {
        proof {
            lemma_rot2_entry_bounds(self@);
            lemma_rot2_entry_bounds(other@);
        }
        let r = Basis2 { mat: self.mat.mul_m(&other.mat) };
        proof {
            lemma_rot2_mul(self@, other@);
            assert forall|v: Vec2M| #[trigger] r.app(v) == self.app(other.app(v)) by {
                lemma_m2_mul_v_assoc(self@, other@, v);
            }
        }
        r
    }

    fn invert(&self) -> (r: Basis2) {
        let r = Basis2 { mat: self.mat.transpose() };
        proof {
            lemma_rot2_transpose(self@);
            lemma_rot2_inverse(self@);
            assert forall|v: Vec2M| vec2_eq(#[trigger] r.app(self.app(v)), v) by {
                lemma_m2_mul_v_assoc(m2_transpose(self@), self@, v);
                lemma_scale_swap(self@.den * self@.den, v.x, v.den);
                lemma_scale_swap(self@.den * self@.den, v.y, v.den);
            }
            assert forall|v: Vec2M| vec2_eq(#[trigger] self.app(r.app(v)), v) by {
                lemma_m2_mul_v_assoc(self@, m2_transpose(self@), v);
                lemma_scale_swap(self@.den * self@.den, v.x, v.den);
                lemma_scale_swap(self@.den * self@.den, v.y, v.den);
            }
        }
        r
    }

    fn concat_self(&mut self, other: &Basis2) {
        let r = self.concat(other);
        *self = r;
    }

    fn invert_self(&mut self) {
        let r = self.invert();
        *self = r;
    }

    fn approx_eq(&self, other: &Basis2) -> (r: bool) {
        self.mat.approx_eq(&other.mat)
    }

    fn approx_epsilon() -> (r: (i64, i64)) {
        (0, 1)
    }

    fn to_mat2(&self) -> (r: Mat2) {
        self.mat
    }

    fn to_rot2(&self) -> (r: Basis2) {
        *self
    }
}

/// Identity law on representations: composing with the identity rotation
/// changes nothing, on either side.
pub proof fn lemma_rot2_identity_law(m: Mat2M)
    requires
        rot2_wf(m),
    ensures
        m2_mul(m, m2_id()) == m,
        m2_mul(m2_id(), m) == m,
{
    lemma_m2_mul_id(m);
}

/// Inverse law on representations: a rotation composed with its transpose
/// denotes exactly the identity rotation, on either side.
pub proof fn lemma_rot2_inverse_law(m: Mat2M)
    requires
        rot2_wf(m),
    ensures
        mat2_eq(m2_mul(m, m2_transpose(m)), m2_id()),
        mat2_eq(m2_mul(m2_transpose(m), m), m2_id()),
{
    lemma_rot2_inverse(m);
}

/// Associativity law on representations: composition of rotation matrices
/// is associative, exactly.
pub proof fn lemma_rot2_assoc_law(a: Mat2M, b: Mat2M, c: Mat2M)
    ensures
        m2_mul(m2_mul(a, b), c) == m2_mul(a, m2_mul(b, c)),
{
    lemma_m2_mul_assoc(a, b, c);
}

/// Orthogonality of the wrapped matrix, as the transpose-is-inverse law:
/// what `concat` and `invert` preserve (their contracts keep `rot2_wf`)
/// means that columns and rows stay unit length and perpendicular.
pub proof fn lemma_rot2_orthogonality_law(m: Mat2M)
    requires
        rot2_wf(m),
    ensures
        m.m00 * m.m00 + m.m10 * m.m10 == m.den * m.den,
        m.m01 * m.m01 + m.m11 * m.m11 == m.den * m.den,
        m.m00 * m.m01 + m.m10 * m.m11 == 0,
        m.m00 * m.m00 + m.m01 * m.m01 == m.den * m.den,
        m.m10 * m.m10 + m.m11 * m.m11 == m.den * m.den,
        m.m00 * m.m10 + m.m01 * m.m11 == 0,
        crate::matrix::m2_det(m) == m.den * m.den,
{
    lemma_rot2_orthogonal(m);
}


/// The generic contract of a spatial rotation: the same operations and laws
/// as [`Rotation2`], over three-dimensional vectors, together with the
/// conversions every spatial representation owes.
pub trait Rotation3: Sized {
    /// The representation invariant.
    spec fn wf(self) -> bool;

    /// The exact action of this rotation on a vector value.
    spec fn app(self, v: Vec3M) -> Vec3M;

    /// The representation is small enough to rotate the bounded vector `v`.
    spec fn fits_vec(self, v: Vec3M) -> bool;

    /// Both representations are small enough to compose or compare.
    spec fn fits_concat(self, other: Self) -> bool;

    /// Exact equality of the two underlying representations.
    spec fn rep_eq(self, other: Self) -> bool;

    /// The denominator of the exact representation: the scale at which it
    /// holds the rotation.  The identity has denominator one and composition
    /// multiplies denominators, so a caller can bound the representations it
    /// builds and meet the `fits_*` preconditions of follow-on calls.
    spec fn den(self) -> int;

    /// The exact representation that `invert` and `invert_self` return.
    spec fn inv_rep(self) -> Self;

    /// The rotation that maps every vector to itself.
    fn identity() -> (r: Self)
        ensures
            r.wf(),
            r.den() == 1,
            forall|v: Vec3M| #[trigger] r.app(v) == v,
    ;

    /// Applies the rotation to a free vector.
    fn rotate_vec(&self, v: &Vec3) -> (r: Vec3)
        requires
            self.wf(),
            self.fits_vec(v@),
        ensures
            r@ == self.app(v@),
            r@.den == self.den() * v@.den,
    ;

    /// The composed rotation: `concat(a, b)` applies `b` first, then `a`,
    /// for every representation alike.
    fn concat(&self, other: &Self) -> (r: Self)
        requires
            self.wf(),
            other.wf(),
            self.fits_concat(*other),
        ensures
            r.wf(),
            r.den() == self.den() * other.den(),
            forall|v: Vec3M| #[trigger] r.app(v) == self.app(other.app(v)),
    ;

    /// The rotation that undoes this one.
    fn invert(&self) -> (r: Self)
        requires
            self.wf(),
        ensures
            r.wf(),
            r == self.inv_rep(),
            forall|v: Vec3M| vec3_eq(#[trigger] r.app(self.app(v)), v),
            forall|v: Vec3M| vec3_eq(#[trigger] self.app(r.app(v)), v),
    ;

    /// In-place composition; the result is the one `concat` returns.
    fn concat_self(&mut self, other: &Self)
        requires
            old(self).wf(),
            other.wf(),
            old(self).fits_concat(*other),
        ensures
            final(self).wf(),
            final(self).den() == old(self).den() * other.den(),
            forall|v: Vec3M| #[trigger] final(self).app(v) == old(self).app(other.app(v)),
    ;

    /// In-place inversion; the result is the one `invert` returns.
    fn invert_self(&mut self)
        requires
            old(self).wf(),
        ensures
            final(self).wf(),
            *final(self) == old(self).inv_rep(),
            forall|v: Vec3M| vec3_eq(#[trigger] final(self).app(old(self).app(v)), v),
            forall|v: Vec3M| vec3_eq(#[trigger] old(self).app(final(self).app(v)), v),
    ;

    /// Whether the two rotations have exactly equal representations, the
    /// approximate-equality test at the default (zero) tolerance.
    fn approx_eq(&self, other: &Self) -> (r: bool)
        ensures
            r == self.rep_eq(*other),
    ;

    /// The default comparison tolerance: zero, as numerator and denominator.
    fn approx_epsilon() -> (r: (i64, i64))
        ensures
            r.0 == 0,
            r.1 == 1,
    ;

    /// Small denominators meet the composition bound.
    proof fn fits_concat_from_den(self, other: Self)
        requires
            0 < self.den() <= 0x4000_0000,
            0 < other.den() <= 0x4000_0000,
        ensures
            self.fits_concat(other),
    ;

    /// A small denominator and a bounded vector meet the rotation bound.
    proof fn fits_vec_from_den(self, v: Vec3M)
        requires
            0 < self.den() <= 0x4000_0000,
            vec3_bounded(v, 0x4000_0000),
        ensures
            self.fits_vec(v),
    ;

    /// The rotation as a dense 3×3 matrix that acts exactly as it does.
    fn to_mat3(&self) -> (r: Mat3)
        requires
            self.wf(),
        ensures
            rot3_wf(r@),
            r@.den == self.den(),
            forall|v: Vec3M| #[trigger] m3_mul_v(r@, v) == self.app(v),
    ;

    /// The rotation in the canonical matrix representation.
    fn to_rot3(&self) -> (r: Basis3)
        requires
            self.wf(),
        ensures
            rot3_wf(r@),
            r@.den == self.den(),
            forall|v: Vec3M| #[trigger] m3_mul_v(r@, v) == self.app(v),
    ;
}

/// Applies a rotation to a point: the point is read as the vector from the
/// origin, rotated by the primitive `rotate_vec`, and rebuilt as a point.
pub fn rotate_point3<R: Rotation3>(r: &R, p: &Point3) -> (q: Point3)
    requires
        r.wf(),
        r.fits_vec(p@),
    ensures
        q@ == r.app(p@),
{
    Point3::from_vec(&r.rotate_vec(&p.to_vec()))
}

/// Applies a rotation to a ray: the origin is kept exactly as it is and only
/// the direction vector is rotated.
pub fn rotate_ray3<R: Rotation3>(r: &R, ray: &Ray3) -> (s: Ray3)
    requires
        r.wf(),
        r.fits_vec(ray.direction@),
    ensures
        s.origin == ray.origin,
        s.direction@ == r.app(ray.direction@),
{
    Ray3::new(ray.origin, r.rotate_vec(&ray.direction))
}

/// The matrix of a rotation about the `x` axis by the angle `a`.
pub open spec fn m3_angle_x(a: AngleM) -> Mat3M {
    Mat3M {
        m00: a.den,
        m01: 0,
        m02: 0,
        m10: 0,
        m11: a.c,
        m12: -a.s,
        m20: 0,
        m21: a.s,
        m22: a.c,
        den: a.den,
    }
}

/// The matrix of a rotation about the `y` axis by the angle `a`.
pub open spec fn m3_angle_y(a: AngleM) -> Mat3M {
    Mat3M {
        m00: a.c,
        m01: 0,
        m02: a.s,
        m10: 0,
        m11: a.den,
        m12: 0,
        m20: -a.s,
        m21: 0,
        m22: a.c,
        den: a.den,
    }
}

/// The matrix of a rotation about the `z` axis by the angle `a`.
pub open spec fn m3_angle_z(a: AngleM) -> Mat3M {
    Mat3M {
        m00: a.c,
        m01: -a.s,
        m02: 0,
        m10: a.s,
        m11: a.c,
        m12: 0,
        m20: 0,
        m21: 0,
        m22: a.den,
        den: a.den,
    }
}

/// The elementary rotation matrices are orthogonal.
proof fn lemma_rot3_elementary(a: AngleM)
    requires
        angle_wf(a),
    ensures
        rot3_wf(m3_angle_x(a)),
        rot3_wf(m3_angle_y(a)),
        rot3_wf(m3_angle_z(a)),
{
    assert((-a.s) * (-a.s) + a.c * a.c == a.den * a.den && a.c * a.c + (-a.s) * (-a.s) == a.den
        * a.den && a.c * (-a.s) + a.s * a.c == 0 && (-a.s) * a.c + a.c * a.s == 0 && a.c * a.s + (
    -a.s) * a.c == 0 && a.s * a.c + a.c * (-a.s) == 0 && a.s * a.s + a.c * a.c == a.den * a.den)
        by (nonlinear_arith)
        requires
            a.c * a.c + a.s * a.s == a.den * a.den,
    ;
}

/// A three-dimensional rotation matrix.
///
/// The wrapped matrix is guaranteed orthogonal: the only exposed constructors
/// establish that invariant and the only exposed operations preserve it.
#[derive(Clone, Copy, PartialEq, Eq, Structural, Debug)]
pub struct Basis3 {
    mat: Mat3,
}

impl View for Basis3 {
    type V = Mat3M;

    closed spec fn view(&self) -> Mat3M {
        self.mat@
    }
}

impl Basis3 {
    /// A read-only view of the wrapped matrix.
    pub fn as_mat3(&self) -> (r: &Mat3)
        ensures
            r@ == self@,
    {
        &self.mat
    }

    /// The rotation about the `x` axis (pitch) by the given angle.
    pub fn from_angle_x(theta: &Angle) -> (r: Basis3)
        requires
            angle_wf(theta@),
        ensures
            rot3_wf(r@),
            r@ == m3_angle_x(theta@),
    {
        proof {
            lemma_angle_bounds(theta@);
            lemma_rot3_elementary(theta@);
        }
        Basis3 {
            mat: Mat3 {
                m00: theta.den,
                m01: 0,
                m02: 0,
                m10: 0,
                m11: theta.cos,
                m12: -theta.sin,
                m20: 0,
                m21: theta.sin,
                m22: theta.cos,
                den: theta.den,
            },
        }
    }

    /// The rotation about the `y` axis (yaw) by the given angle.
    pub fn from_angle_y(theta: &Angle) -> (r: Basis3)
        requires
            angle_wf(theta@),
        ensures
            rot3_wf(r@),
            r@ == m3_angle_y(theta@),
    {
        proof {
            lemma_angle_bounds(theta@);
            lemma_rot3_elementary(theta@);
        }
        Basis3 {
            mat: Mat3 {
                m00: theta.cos,
                m01: 0,
                m02: theta.sin,
                m10: 0,
                m11: theta.den,
                m12: 0,
                m20: -theta.sin,
                m21: 0,
                m22: theta.cos,
                den: theta.den,
            },
        }
    }

    /// The rotation about the `z` axis (roll) by the given angle.
    pub fn from_angle_z(theta: &Angle) -> (r: Basis3)
        requires
            angle_wf(theta@),
        ensures
            rot3_wf(r@),
            r@ == m3_angle_z(theta@),
    {
        proof {
            lemma_angle_bounds(theta@);
            lemma_rot3_elementary(theta@);
        }
        Basis3 {
            mat: Mat3 {
                m00: theta.cos,
                m01: -theta.sin,
                m02: 0,
                m10: theta.sin,
                m11: theta.cos,
                m12: 0,
                m20: 0,
                m21: 0,
                m22: theta.den,
                den: theta.den,
            },
        }
    }

    /// The rotation by three Euler angles: the `x` rotation (pitch) is
    /// applied first, then `y` (yaw), then `z` (roll), so the matrix is the
    /// product `Rz * Ry * Rx`.
    pub fn from_euler(x: &Angle, y: &Angle, z: &Angle) -> (r: Basis3)
        requires
            angle_wf(x@),
            angle_wf(y@),
            angle_wf(z@),
            x@.den * y@.den * z@.den <= 0x4000_0000,
        ensures
            rot3_wf(r@),
            r@ == m3_mul(m3_mul(m3_angle_z(z@), m3_angle_y(y@)), m3_angle_x(x@)),
    {
        proof {
            lemma_rot3_elementary(x@);
            lemma_rot3_elementary(y@);
            lemma_rot3_elementary(z@);
            lemma_rot3_entry_bounds(m3_angle_x(x@));
            lemma_rot3_entry_bounds(m3_angle_y(y@));
            lemma_rot3_entry_bounds(m3_angle_z(z@));
            assert(z@.den <= x@.den * y@.den * z@.den && y@.den <= x@.den * y@.den * z@.den
                && x@.den <= x@.den * y@.den * z@.den && z@.den * y@.den <= x@.den * y@.den
                * z@.den) by (nonlinear_arith)
                requires
                    x@.den >= 1,
                    y@.den >= 1,
                    z@.den >= 1,
            ;
        }
        let rz = Basis3::from_angle_z(z);
        let ry = Basis3::from_angle_y(y);
        let rx = Basis3::from_angle_x(x);
        let zy = rz.mat.mul_m(&ry.mat);
        proof {
            lemma_rot3_mul(m3_angle_z(z@), m3_angle_y(y@));
            lemma_rot3_entry_bounds(zy@);
            lemma_rot3_mul(zy@, m3_angle_x(x@));
        }
        Basis3 { mat: zy.mul_m(&rx.mat) }
    }

    /// Whether every entry of the two rotations differs by at most `en/ed`.
    pub fn approx_eq_eps(&self, other: &Basis3, en: i64, ed: i64) -> (r: bool)
        requires
            rot3_wf(self@),
            rot3_wf(other@),
            self@.den <= 0x4000_0000,
            other@.den <= 0x4000_0000,
            0 <= en <= 0x4000_0000,
            0 < ed <= 0x4000_0000,
        ensures
            r == mat3_close(self@, other@, en as int, ed as int),
    {
        proof {
            lemma_rot3_entry_bounds(self@);
            lemma_rot3_entry_bounds(other@);
        }
        self.mat.approx_eq_eps(&other.mat, en, ed)
    }
}

impl Rotation3 for Basis3 {
    open spec fn wf(self) -> bool {
        rot3_wf(self@)
    }

    open spec fn app(self, v: Vec3M) -> Vec3M {
        m3_mul_v(self@, v)
    }

    open spec fn fits_vec(self, v: Vec3M) -> bool {
        self@.den <= 0x4000_0000 && vec3_bounded(v, 0x4000_0000)
    }

    open spec fn fits_concat(self, other: Self) -> bool {
        self@.den <= 0x4000_0000 && other@.den <= 0x4000_0000
    }

    open spec fn rep_eq(self, other: Self) -> bool {
        mat3_eq(self@, other@)
    }

    open spec fn den(self) -> int {
        self@.den
    }

    closed spec fn inv_rep(self) -> Basis3 {
        Basis3 {
            mat: Mat3 {
                m00: self.mat.m00,
                m01: self.mat.m10,
                m02: self.mat.m20,
                m10: self.mat.m01,
                m11: self.mat.m11,
                m12: self.mat.m21,
                m20: self.mat.m02,
                m21: self.mat.m12,
                m22: self.mat.m22,
                den: self.mat.den,
            },
        }
    }

    proof fn fits_concat_from_den(self, other: Basis3) {
    }

    proof fn fits_vec_from_den(self, v: Vec3M) {
    }

    fn identity() -> (r: Basis3) {
        let r = Basis3 { mat: Mat3::identity() };
        proof {
            assert forall|v: Vec3M| #[trigger] r.app(v) == v by {
                lemma_m3_mul_v_id(v);
            }
        }
        r
    }

    fn rotate_vec(&self, v: &Vec3) -> (r: Vec3) {
        proof {
            lemma_rot3_entry_bounds(self@);
        }
        self.mat.mul_v(v)
    }

    fn concat(&self, other: &Basis3) -> (r: Basis3) {
        proof {
            lemma_rot3_entry_bounds(self@);
            lemma_rot3_entry_bounds(other@);
        }
        let r = Basis3 { mat: self.mat.mul_m(&other.mat) };
        proof {
            lemma_rot3_mul(self@, other@);
            assert forall|v: Vec3M| #[trigger] r.app(v) == self.app(other.app(v)) by {
                lemma_m3_mul_v_assoc(self@, other@, v);
            }
        }
        r
    }

    fn invert(&self) -> (r: Basis3) {
        let r = Basis3 { mat: self.mat.transpose() };
        proof {
            lemma_rot3_transpose(self@);
            lemma_rot3_inverse(self@);
            assert forall|v: Vec3M| vec3_eq(#[trigger] r.app(self.app(v)), v) by {
                lemma_m3_mul_v_assoc(m3_transpose(self@), self@, v);
                lemma_scale_swap(self@.den * self@.den, v.x, v.den);
                lemma_scale_swap(self@.den * self@.den, v.y, v.den);
                lemma_scale_swap(self@.den * self@.den, v.z, v.den);
            }
            assert forall|v: Vec3M| vec3_eq(#[trigger] self.app(r.app(v)), v) by {
                lemma_m3_mul_v_assoc(self@, m3_transpose(self@), v);
                lemma_scale_swap(self@.den * self@.den, v.x, v.den);
                lemma_scale_swap(self@.den * self@.den, v.y, v.den);
                lemma_scale_swap(self@.den * self@.den, v.z, v.den);
            }
        }
        r
    }

    fn concat_self(&mut self, other: &Basis3) {
        let r = self.concat(other);
        *self = r;
    }

    fn invert_self(&mut self) {
        let r = self.invert();
        *self = r;
    }

    fn approx_eq(&self, other: &Basis3) -> (r: bool) {
        self.mat.approx_eq(&other.mat)
    }

    fn approx_epsilon() -> (r: (i64, i64)) {
        (0, 1)
    }

    fn to_mat3(&self) -> (r: Mat3) {
        self.mat
    }

    fn to_rot3(&self) -> (r: Basis3) {
        *self
    }
}

/// Identity law on representations: composing with the identity rotation
/// changes nothing, on either side.
pub proof fn lemma_rot3_identity_law(m: Mat3M)
    requires
        rot3_wf(m),
    ensures
        m3_mul(m, m3_id()) == m,
        m3_mul(m3_id(), m) == m,
{
    lemma_m3_mul_id(m);
}

/// Inverse law on representations: a rotation composed with its transpose
/// denotes exactly the identity rotation, on either side.
pub proof fn lemma_rot3_inverse_law(m: Mat3M)
    requires
        rot3_wf(m),
    ensures
        mat3_eq(m3_mul(m, m3_transpose(m)), m3_id()),
        mat3_eq(m3_mul(m3_transpose(m), m), m3_id()),
{
    lemma_rot3_inverse(m);
}

/// Associativity law on representations: composition of rotation matrices
/// is associative, exactly.
pub proof fn lemma_rot3_assoc_law(a: Mat3M, b: Mat3M, c: Mat3M)
    ensures
        m3_mul(m3_mul(a, b), c) == m3_mul(a, m3_mul(b, c)),
{
    lemma_m3_mul_assoc(a, b, c);
}

/// Orthogonality of the wrapped matrix: what `concat` and `invert` preserve
/// (their contracts keep `rot3_wf`) means that columns and rows stay unit
/// length and perpendicular, so the transpose stays the inverse.
pub proof fn lemma_rot3_orthogonality_law(m: Mat3M)
    requires
        rot3_wf(m),
    ensures
        m3_mul(m3_transpose(m), m) == (Mat3M {
            m00: m.den * m.den,
            m01: 0,
            m02: 0,
            m10: 0,
            m11: m.den * m.den,
            m12: 0,
            m20: 0,
            m21: 0,
            m22: m.den * m.den,
            den: m.den * m.den,
        }),
        m3_mul(m, m3_transpose(m)) == (Mat3M {
            m00: m.den * m.den,
            m01: 0,
            m02: 0,
            m10: 0,
            m11: m.den * m.den,
            m12: 0,
            m20: 0,
            m21: 0,
            m22: m.den * m.den,
            den: m.den * m.den,
        }),
{
    lemma_rot3_inverse(m);
}

/// The inverse representation of a matrix rotation is exactly the transpose
/// of its wrapped matrix (same denominator, rows for columns).
pub proof fn lemma_basis2_inv_rep(b: Basis2)
    ensures
        b.inv_rep()@ == m2_transpose(b@),
{
}

/// The inverse representation of a matrix rotation is exactly the transpose
/// of its wrapped matrix (same denominator, rows for columns).
pub proof fn lemma_basis3_inv_rep(b: Basis3)
    ensures
        b.inv_rep()@ == m3_transpose(b@),
{
}

/// Every elementary rotation matrix is proper: its determinant is the cube
/// of its denominator, never a reflection.
pub proof fn lemma_rot3_elementary_proper(a: AngleM)
    requires
        angle_wf(a),
    ensures
        m3_det(m3_angle_x(a)) == a.den * a.den * a.den,
        m3_det(m3_angle_y(a)) == a.den * a.den * a.den,
        m3_det(m3_angle_z(a)) == a.den * a.den * a.den,
{
    assert(a.den * (a.c * a.c - (-a.s) * a.s) - 0 * (0 * a.c - (-a.s) * 0) + 0 * (0 * a.s - a.c
        * 0) == a.den * a.den * a.den) by (nonlinear_arith)
        requires
            a.c * a.c + a.s * a.s == a.den * a.den,
    ;
    assert(a.c * (a.den * a.c - 0 * 0) - 0 * (0 * a.c - 0 * (-a.s)) + a.s * (0 * 0 - a.den * (
    -a.s)) == a.den * a.den * a.den) by (nonlinear_arith)
        requires
            a.c * a.c + a.s * a.s == a.den * a.den,
    ;
    assert(a.c * (a.c * a.den - 0 * 0) - (-a.s) * (a.s * a.den - 0 * 0) + 0 * (a.s * 0 - a.c * 0)
        == a.den * a.den * a.den) by (nonlinear_arith)
        requires
            a.c * a.c + a.s * a.s == a.den * a.den,
    ;
}


} // verus!
