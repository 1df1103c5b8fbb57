use cgmath::angle::Angle;
use cgmath::rotation::{rotate_point3, rotate_ray3, Basis3, Rotation3};
use cgmath::vector::{Point3, Ray3, Vec3};

#[test]
fn identity_fixes_vectors_3d() {
    let id = Basis3::identity();
    let v = Vec3::new(7, -3, 5, 2);
    assert_eq!(id.rotate_vec(&v), v);
}

#[test]
fn quarter_turn_about_z_rotates_x_to_y() {
    let quarter = Basis3::from_angle_z(&Angle::new(0, 1, 1));
    let turned = quarter.rotate_vec(&Vec3::new(1, 0, 0, 1));
    assert_eq!(turned, Vec3::new(0, 1, 0, 1));
}

#[test]
fn two_quarter_turns_reverse_x() {
    let quarter = Basis3::from_angle_z(&Angle::new(0, 1, 1));
    let half = quarter.concat(&quarter);
    let turned = half.rotate_vec(&Vec3::new(1, 0, 0, 1));
    assert_eq!(turned.x, -1);
    assert_eq!(turned.y, 0);
    assert_eq!(turned.z, 0);
    assert_eq!(turned.den, 1);
}

#[test]
fn elementary_axes_fix_their_own_axis() {
    let a = Angle::new(3, 4, 5);
    let x_axis = Vec3::new(1, 0, 0, 1);
    let y_axis = Vec3::new(0, 1, 0, 1);
    let z_axis = Vec3::new(0, 0, 1, 1);
    let rx = Basis3::from_angle_x(&a).rotate_vec(&x_axis);
    assert_eq!((rx.x, rx.y, rx.z), (rx.den, 0, 0));
    let ry = Basis3::from_angle_y(&a).rotate_vec(&y_axis);
    assert_eq!((ry.x, ry.y, ry.z), (0, ry.den, 0));
    let rz = Basis3::from_angle_z(&a).rotate_vec(&z_axis);
    assert_eq!((rz.x, rz.y, rz.z), (0, 0, rz.den));
}

#[test]
fn euler_composes_elementary_rotations() {
    let x = Angle::new(3, 4, 5);
    let y = Angle::new(5, 12, 13);
    let z = Angle::new(8, 15, 17);
    let euler = Basis3::from_euler(&x, &y, &z);
    let composed = Basis3::from_angle_z(&z)
        .concat(&Basis3::from_angle_y(&y))
        .concat(&Basis3::from_angle_x(&x));
    assert_eq!(euler, composed);
}

#[test]
fn inverse_law_3d() {
    let r = Basis3::from_euler(&Angle::new(3, 4, 5), &Angle::new(5, 12, 13), &Angle::new(0, 1, 1));
    let id = Basis3::identity();
    assert!(r.concat(&r.invert()).approx_eq(&id));
    assert!(r.invert().concat(&r).approx_eq(&id));
}

#[test]
fn concat_is_associative_3d() {
    let a = Basis3::from_angle_x(&Angle::new(3, 4, 5));
    let b = Basis3::from_angle_y(&Angle::new(5, 12, 13));
    let c = Basis3::from_angle_z(&Angle::new(8, 15, 17));
    assert_eq!(a.concat(&b).concat(&c), a.concat(&b.concat(&c)));
}

#[test]
fn in_place_variants_match_pure_forms_3d() {
    let a = Basis3::from_angle_x(&Angle::new(3, 4, 5));
    let b = Basis3::from_angle_z(&Angle::new(5, 12, 13));
    let mut m = a;
    m.concat_self(&b);
    assert_eq!(m, a.concat(&b));
    let mut n = a;
    n.invert_self();
    assert_eq!(n, a.invert());
}

#[test]
fn rotate_point_matches_rotate_vec_3d() {
    let r = Basis3::from_angle_z(&Angle::new(3, 4, 5));
    let p = Point3::new(2, 1, 9, 1);
    let q = rotate_point3(&r, &p);
    assert_eq!(q, Point3::from_vec(&r.rotate_vec(&p.to_vec())));
    // (3/5 * 2 - 4/5 * 1, 4/5 * 2 + 3/5 * 1, 9) = (2/5, 11/5, 45/5)
    assert_eq!(q, Point3::new(2, 11, 45, 5));
}

#[test]
fn rotate_ray_keeps_origin_3d() {
    let r = Basis3::from_angle_y(&Angle::new(3, 4, 5));
    let ray = Ray3::new(Point3::new(6, 7, -2, 3), Vec3::new(1, 0, 0, 1));
    let s = rotate_ray3(&r, &ray);
    assert_eq!(s.origin, ray.origin);
    assert_eq!(s.direction, r.rotate_vec(&ray.direction));
}

#[test]
fn orthogonality_survives_in_place_updates() {
    let mut m = Basis3::from_angle_x(&Angle::new(3, 4, 5));
    m.concat_self(&Basis3::from_angle_z(&Angle::new(5, 12, 13)));
    m.invert_self();
    let mat = m.to_mat3();
    let d = mat.den as i128;
    // Columns stay unit length and mutually perpendicular.
    let col = |j: usize| -> [i128; 3] {
        let e = [
            [mat.m00, mat.m01, mat.m02],
            [mat.m10, mat.m11, mat.m12],
            [mat.m20, mat.m21, mat.m22],
        ];
        [e[0][j] as i128, e[1][j] as i128, e[2][j] as i128]
    };
    for i in 0..3 {
        for j in 0..3 {
            let dot = col(i)[0] * col(j)[0] + col(i)[1] * col(j)[1] + col(i)[2] * col(j)[2];
            assert_eq!(dot, if i == j { d * d } else { 0 });
        }
    }
    // And the inverse really is the transpose.
    assert_eq!(m.invert().to_mat3(), m.to_mat3().transpose());
}

#[test]
fn approx_eq_eps_3d() {
    let a = Basis3::from_angle_z(&Angle::new(3, 4, 5));
    let b = Basis3::from_angle_z(&Angle::new(4, 3, 5));
    assert!(a.approx_eq_eps(&b, 1, 4));
    assert!(!a.approx_eq_eps(&b, 1, 10));
    assert!(!a.approx_eq(&b));
    assert!(a.approx_eq(&a));
}

#[test]
fn conversions_preserve_the_matrix_3d() {
    let r = Basis3::from_angle_z(&Angle::new(0, 1, 1));
    let m = r.to_mat3();
    assert_eq!((m.m00, m.m01, m.m10, m.m11, m.m22, m.den), (0, -1, 1, 0, 1, 1));
    assert_eq!(r.as_mat3(), &m);
    assert_eq!(r.to_rot3(), r);
    let eps = <Basis3 as Rotation3>::approx_epsilon();
    assert_eq!(eps, (0, 1));
}
