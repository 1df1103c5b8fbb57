//! Rigid-rotation representations over exact rational coordinates.
//!
//! Three representations of a rigid rotation — a 2×2 orthogonal matrix
//! ([`rotation::Basis2`]), a 3×3 orthogonal matrix ([`rotation::Basis3`]) and
//! a unit quaternion ([`quaternion::Quat`]) — satisfy one shared contract
//! ([`rotation::Rotation2`] / [`rotation::Rotation3`]): identity, applying the
//! rotation to vectors, points and rays, composition, and inversion.
//!
//! Every coordinate is the exact rational `numerator / denominator`, held as
//! signed integers, so the orthogonality and unit-norm invariants are exact
//! equations and the rotation laws are proved, not approximated.  An angle is
//! given by its exact cosine and sine ([`angle::Angle`]); unverified callers
//! obtain such pairs from a radian measure through half-angle tangents.

pub mod angle;
pub mod hsv;
pub mod matrix;
pub mod quaternion;
pub mod rotation;
pub mod vector;
