//! Exact vectors, points and rays in two and three dimensions.
//!
//! A value holds integer numerators and one positive denominator: the vector
//! `(x/den, y/den)`.  Two values denote the same vector when the
//! cross-multiplied numerators agree, so arithmetic is exact and never
//! rounds.

use vstd::prelude::*;

verus! {

/// Exact value of a planar vector: the rational pair `(x/den, y/den)`.
#[verifier::ext_equal]
pub ghost struct Vec2M {
    pub x: int,
    pub y: int,
    pub den: int,
}

/// Exact value of a spatial vector: `(x/den, y/den, z/den)`.
#[verifier::ext_equal]
pub ghost struct Vec3M {
    pub x: int,
    pub y: int,
    pub z: int,
    pub den: int,
}

/// The denominator is positive, so the value denotes a vector.
pub open spec fn vec2_wf(v: Vec2M) -> bool {
    v.den > 0
}

/// The denominator is positive, so the value denotes a vector.
pub open spec fn vec3_wf(v: Vec3M) -> bool {
    v.den > 0
}

/// `a` and `b` denote the same planar vector (cross-multiplied equality).
pub open spec fn vec2_eq(a: Vec2M, b: Vec2M) -> bool {
    &&& a.x * b.den == b.x * a.den
    &&& a.y * b.den == b.y * a.den
}

/// `a` and `b` denote the same spatial vector (cross-multiplied equality).
pub open spec fn vec3_eq(a: Vec3M, b: Vec3M) -> bool {
    &&& a.x * b.den == b.x * a.den
    &&& a.y * b.den == b.y * a.den
    &&& a.z * b.den == b.z * a.den
}

/// All numerators lie in `[-b, b]` and the denominator in `(0, b]`.
pub open spec fn vec2_bounded(v: Vec2M, b: int) -> bool {
    &&& -b <= v.x <= b
    &&& -b <= v.y <= b
    &&& 0 < v.den <= b
}

/// All numerators lie in `[-b, b]` and the denominator in `(0, b]`.
pub open spec fn vec3_bounded(v: Vec3M, b: int) -> bool {
    &&& -b <= v.x <= b
    &&& -b <= v.y <= b
    &&& -b <= v.z <= b
    &&& 0 < v.den <= b
}

/// A planar vector with exact rational coordinates.
#[derive(Clone, Copy, PartialEq, Eq, Structural, Debug)]
pub struct Vec2 {
    pub x: i64,
    pub y: i64,
    pub den: i64,
}

impl View for Vec2 {
    type V = Vec2M;

    open spec fn view(&self) -> Vec2M {
        Vec2M { x: self.x as int, y: self.y as int, den: self.den as int }
    }
}

impl Vec2 {
    /// The vector `(x/den, y/den)`.
    pub fn new(x: i64, y: i64, den: i64) -> (r: Vec2)
        requires
            den > 0,
        ensures
            r@ == (Vec2M { x: x as int, y: y as int, den: den as int }),
    {
        Vec2 { x, y, den }
    }

    /// The zero vector.
    pub fn zero() -> (r: Vec2)
        ensures
            r@ == (Vec2M { x: 0, y: 0, den: 1 }),
    {
        Vec2 { x: 0, y: 0, den: 1 }
    }

    /// Exact dot product, returned as numerator and denominator.
    pub fn dot(&self, other: &Vec2) -> (r: (i64, i64))
        requires
            vec2_bounded(self@, 0x4000_0000),
            vec2_bounded(other@, 0x4000_0000),
        ensures
            r.0 == self@.x * other@.x + self@.y * other@.y,
            r.1 == self@.den * other@.den,
    {
        proof {
            lemma_mul_bound(self@.x, other@.x, 0x4000_0000, 0x4000_0000);
            lemma_mul_bound(self@.y, other@.y, 0x4000_0000, 0x4000_0000);
            lemma_mul_bound(self@.den, other@.den, 0x4000_0000, 0x4000_0000);
        }
        let n: i128 = (self.x as i128) * (other.x as i128) + (self.y as i128) * (other.y as i128);
        (n as i64, self.den * other.den)
    }
}

/// A spatial vector with exact rational coordinates.
#[derive(Clone, Copy, PartialEq, Eq, Structural, Debug)]
pub struct Vec3 {
    pub x: i64,
    pub y: i64,
    pub z: i64,
    pub den: i64,
}

impl View for Vec3 {
    type V = Vec3M;

    open spec fn view(&self) -> Vec3M {
        Vec3M { x: self.x as int, y: self.y as int, z: self.z as int, den: self.den as int }
    }
}

impl Vec3 {
    /// The vector `(x/den, y/den, z/den)`.
    pub fn new(x: i64, y: i64, z: i64, den: i64) -> (r: Vec3)
        requires
            den > 0,
        ensures
            r@ == (Vec3M { x: x as int, y: y as int, z: z as int, den: den as int }),
    {
        Vec3 { x, y, z, den }
    }

    /// The zero vector.
    pub fn zero() -> (r: Vec3)
        ensures
            r@ == (Vec3M { x: 0, y: 0, z: 0, den: 1 }),
    {
        Vec3 { x: 0, y: 0, z: 0, den: 1 }
    }

    /// Exact dot product, returned as numerator and denominator.
    pub fn dot(&self, other: &Vec3) -> (r: (i64, i64))
        requires
            vec3_bounded(self@, 0x4000_0000),
            vec3_bounded(other@, 0x4000_0000),
        ensures
            r.0 == self@.x * other@.x + self@.y * other@.y + self@.z * other@.z,
            r.1 == self@.den * other@.den,
    {
        proof {
            lemma_mul_bound(self@.x, other@.x, 0x4000_0000, 0x4000_0000);
            lemma_mul_bound(self@.y, other@.y, 0x4000_0000, 0x4000_0000);
            lemma_mul_bound(self@.z, other@.z, 0x4000_0000, 0x4000_0000);
            lemma_mul_bound(self@.den, other@.den, 0x4000_0000, 0x4000_0000);
        }
        let n: i128 = (self.x as i128) * (other.x as i128) + (self.y as i128) * (other.y as i128)
            + (self.z as i128) * (other.z as i128);
        (n as i64, self.den * other.den)
    }
}

/// A planar point; its view is the vector from the origin to the point.
#[derive(Clone, Copy, PartialEq, Eq, Structural, Debug)]
pub struct Point2 {
    pub x: i64,
    pub y: i64,
    pub den: i64,
}

impl View for Point2 {
    type V = Vec2M;

    open spec fn view(&self) -> Vec2M {
        Vec2M { x: self.x as int, y: self.y as int, den: self.den as int }
    }
}

impl Point2 {
    /// The point `(x/den, y/den)`.
    pub fn new(x: i64, y: i64, den: i64) -> (r: Point2)
        requires
            den > 0,
        ensures
            r@ == (Vec2M { x: x as int, y: y as int, den: den as int }),
    {
        Point2 { x, y, den }
    }

    /// The vector from the origin to this point.
    pub fn to_vec(&self) -> (r: Vec2)
        ensures
            r@ == self@,
    {
        Vec2 { x: self.x, y: self.y, den: self.den }
    }

    /// The point the given vector reaches from the origin.
    pub fn from_vec(v: &Vec2) -> (r: Point2)
        ensures
            r@ == v@,
    {
        Point2 { x: v.x, y: v.y, den: v.den }
    }

    /// Exact difference of two points: the vector from `other` to `self`.
    pub fn sub(&self, other: &Point2) -> (r: Vec2)
        requires
            vec2_bounded(self@, 0x4000_0000),
            vec2_bounded(other@, 0x4000_0000),
        ensures
            r@.x == self@.x * other@.den - other@.x * self@.den,
            r@.y == self@.y * other@.den - other@.y * self@.den,
            r@.den == self@.den * other@.den,
    {
        proof {
            lemma_mul_bound(self@.x, other@.den, 0x4000_0000, 0x4000_0000);
            lemma_mul_bound(other@.x, self@.den, 0x4000_0000, 0x4000_0000);
            lemma_mul_bound(self@.y, other@.den, 0x4000_0000, 0x4000_0000);
            lemma_mul_bound(other@.y, self@.den, 0x4000_0000, 0x4000_0000);
            lemma_mul_bound(self@.den, other@.den, 0x4000_0000, 0x4000_0000);
        }
        let x: i128 = (self.x as i128) * (other.den as i128) - (other.x as i128) * (self.den as i128);
        let y: i128 = (self.y as i128) * (other.den as i128) - (other.y as i128) * (self.den as i128);
        Vec2 { x: x as i64, y: y as i64, den: self.den * other.den }
    }
}

/// A spatial point; its view is the vector from the origin to the point.
#[derive(Clone, Copy, PartialEq, Eq, Structural, Debug)]
pub struct Point3 {
    pub x: i64,
    pub y: i64,
    pub z: i64,
    pub den: i64,
}

impl View for Point3 {
    type V = Vec3M;

    open spec fn view(&self) -> Vec3M {
        Vec3M { x: self.x as int, y: self.y as int, z: self.z as int, den: self.den as int }
    }
}

impl Point3 {
    /// The point `(x/den, y/den, z/den)`.
    pub fn new(x: i64, y: i64, z: i64, den: i64) -> (r: Point3)
        requires
            den > 0,
        ensures
            r@ == (Vec3M { x: x as int, y: y as int, z: z as int, den: den as int }),
    {
        Point3 { x, y, z, den }
    }

    /// The vector from the origin to this point.
    pub fn to_vec(&self) -> (r: Vec3)
        ensures
            r@ == self@,
    {
        Vec3 { x: self.x, y: self.y, z: self.z, den: self.den }
    }

    /// The point the given vector reaches from the origin.
    pub fn from_vec(v: &Vec3) -> (r: Point3)
        ensures
            r@ == v@,
    {
        Point3 { x: v.x, y: v.y, z: v.z, den: v.den }
    }

    /// Exact difference of two points: the vector from `other` to `self`.
    pub fn sub(&self, other: &Point3) -> (r: Vec3)
        requires
            vec3_bounded(self@, 0x4000_0000),
            vec3_bounded(other@, 0x4000_0000),
        ensures
            r@.x == self@.x * other@.den - other@.x * self@.den,
            r@.y == self@.y * other@.den - other@.y * self@.den,
            r@.z == self@.z * other@.den - other@.z * self@.den,
            r@.den == self@.den * other@.den,
    {
        proof {
            lemma_mul_bound(self@.x, other@.den, 0x4000_0000, 0x4000_0000);
            lemma_mul_bound(other@.x, self@.den, 0x4000_0000, 0x4000_0000);
            lemma_mul_bound(self@.y, other@.den, 0x4000_0000, 0x4000_0000);
            lemma_mul_bound(other@.y, self@.den, 0x4000_0000, 0x4000_0000);
            lemma_mul_bound(self@.z, other@.den, 0x4000_0000, 0x4000_0000);
            lemma_mul_bound(other@.z, self@.den, 0x4000_0000, 0x4000_0000);
            lemma_mul_bound(self@.den, other@.den, 0x4000_0000, 0x4000_0000);
        }
        let x: i128 = (self.x as i128) * (other.den as i128) - (other.x as i128) * (self.den as i128);
        let y: i128 = (self.y as i128) * (other.den as i128) - (other.y as i128) * (self.den as i128);
        let z: i128 = (self.z as i128) * (other.den as i128) - (other.z as i128) * (self.den as i128);
        Vec3 { x: x as i64, y: y as i64, z: z as i64, den: self.den * other.den }
    }
}

/// A planar ray: an origin point and a direction vector.
#[derive(Clone, Copy, PartialEq, Eq, Structural, Debug)]
pub struct Ray2 {
    pub origin: Point2,
    pub direction: Vec2,
}

impl Ray2 {
    pub fn new(origin: Point2, direction: Vec2) -> (r: Ray2)
        ensures
            r.origin == origin,
            r.direction == direction,
    {
        Ray2 { origin, direction }
    }
}

/// A spatial ray: an origin point and a direction vector.
#[derive(Clone, Copy, PartialEq, Eq, Structural, Debug)]
pub struct Ray3 {
    pub origin: Point3,
    pub direction: Vec3,
}

impl Ray3 {
    pub fn new(origin: Point3, direction: Vec3) -> (r: Ray3)
        ensures
            r.origin == origin,
            r.direction == direction,
    {
        Ray3 { origin, direction }
    }
}

/// `|a * b| <= ka * kb` whenever `|a| <= ka` and `|b| <= kb`.
pub proof fn lemma_mul_bound(a: int, b: int, ka: int, kb: int)
    requires
        -ka <= a <= ka,
        -kb <= b <= kb,
        0 <= ka,
        0 <= kb,
    ensures
        -(ka * kb) <= a * b <= ka * kb,
{
    assert(-(ka * kb) <= a * b <= ka * kb) by (nonlinear_arith)
        requires
            -ka <= a <= ka,
            -kb <= b <= kb,
            0 <= ka,
            0 <= kb,
    ;
}

} // verus!
