use cgmath::angle::Angle;
use cgmath::quaternion::Quat;
use cgmath::rotation::Basis3;
use cgmath::vector::Vec3;

#[test]
fn identity_quaternion_fixes_vectors() {
    let id = Quat::identity();
    let v = Vec3::new(7, -3, 5, 2);
    assert_eq!(id.mul_v(&v), v);
}

#[test]
fn identity_is_a_unit_for_the_product() {
    let q = Quat::new(3, 4, 0, 0, 5);
    let id = Quat::identity();
    assert_eq!(q.mul_q(&id), q);
    assert_eq!(id.mul_q(&q), q);
}

#[test]
fn half_turn_about_z_reverses_x() {
    let q = Quat::new(0, 0, 0, 1, 1);
    let turned = q.mul_v(&Vec3::new(1, 0, 0, 1));
    assert_eq!((turned.x, turned.y, turned.z, turned.den), (-1, 0, 0, 1));
}

#[test]
fn invert_is_the_conjugate_for_unit_quaternions() {
    let q = Quat::new(3, 4, 0, 0, 5);
    let inv = q.invert();
    // Same value as the plain conjugate, at a rescaled denominator.
    assert!(inv.approx_eq(&q.conjugate()));
}

#[test]
fn quaternion_inverse_law() {
    let q = Quat::new(3, 4, 0, 0, 5);
    let product = q.mul_q(&q.invert());
    assert!(product.approx_eq(&Quat::identity()));
    let product = q.invert().mul_q(&q);
    assert!(product.approx_eq(&Quat::identity()));
}

#[test]
fn scaled_representations_denote_the_same_quaternion() {
    let q = Quat::new(3, 4, 0, 0, 5);
    let doubled = Quat::new(6, 8, 0, 0, 10);
    assert!(q.approx_eq(&doubled));
    assert!(!q.approx_eq(&q.conjugate()));
}

#[test]
fn quaternion_matrix_matches_axis_angle_matrix() {
    // (3 + 4i)/5 rotates about the x axis by the angle with
    // cosine -7/25 and sine 24/25.
    let q = Quat::new(3, 4, 0, 0, 5);
    let m = q.to_mat3();
    let b = Basis3::from_angle_x(&Angle::new(-7, 24, 25));
    assert_eq!(m, *b.as_mat3());
    // Both representations turn the y axis the same way.
    let v = Vec3::new(0, 1, 0, 1);
    let via_quat = q.mul_v(&v);
    let via_matrix = b.as_mat3().mul_v(&v);
    assert_eq!(
        via_quat.y as i128 * via_matrix.den as i128,
        via_matrix.y as i128 * via_quat.den as i128
    );
    assert_eq!(
        via_quat.z as i128 * via_matrix.den as i128,
        via_matrix.z as i128 * via_quat.den as i128
    );
}

#[test]
fn half_turn_quaternion_matrix() {
    let q = Quat::new(0, 0, 0, 1, 1);
    let m = q.to_mat3();
    assert_eq!((m.m00, m.m11, m.m22, m.den), (-1, -1, 1, 1));
    assert_eq!((m.m01, m.m02, m.m10, m.m12, m.m20, m.m21), (0, 0, 0, 0, 0, 0));
}

#[test]
fn magnitude_and_division() {
    let q = Quat::new(3, 4, 0, 0, 5);
    assert_eq!(q.magnitude2(), (25, 25));
    let halved = q.div_s(2, 1);
    assert!(halved.approx_eq(&Quat::new(3, 4, 0, 0, 10)));
}

#[test]
fn concat_is_the_hamilton_product() {
    let a = Quat::new(3, 4, 0, 0, 5);
    let b = Quat::new(5, 0, 12, 0, 13);
    assert_eq!(a.concat(&b), a.mul_q(&b));
    assert_eq!(a.concat(&b).concat(&a), a.concat(&b.concat(&a)));
    let v = Vec3::new(2, -1, 4, 3);
    assert_eq!(a.rotate_vec(&v), a.mul_v(&v));
}

#[test]
fn in_place_variants_match_pure_forms_quat() {
    let a = Quat::new(3, 4, 0, 0, 5);
    let b = Quat::new(5, 0, 12, 0, 13);
    let mut m = a;
    m.concat_self(&b);
    assert_eq!(m, a.concat(&b));
    let mut n = a;
    n.invert_self();
    assert_eq!(n, a.invert());
}
