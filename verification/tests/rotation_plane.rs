use cgmath::angle::Angle;
use cgmath::rotation::{rotate_point2, rotate_ray2, Basis2, Rotation2};
use cgmath::vector::{Point2, Ray2, Vec2};

#[test]
fn identity_fixes_vectors() {
    let id = Basis2::identity();
    let v = Vec2::new(7, -3, 2);
    let r = id.rotate_vec(&v);
    assert_eq!(r, v);
}

#[test]
fn identity_is_concat_unit() {
    let r = Basis2::from_angle(&Angle::new(3, 4, 5));
    let id = Basis2::identity();
    assert!(r.concat(&id).approx_eq(&r));
    assert!(id.concat(&r).approx_eq(&r));
}

#[test]
fn quarter_turn_rotates_x_to_y() {
    let quarter = Basis2::from_angle(&Angle::new(0, 1, 1));
    let x_axis = Vec2::new(1, 0, 1);
    let turned = quarter.rotate_vec(&x_axis);
    assert_eq!(turned, Vec2::new(0, 1, 1));
}

#[test]
fn half_turn_by_composed_quarters() {
    let quarter = Basis2::from_angle(&Angle::new(0, 1, 1));
    let half = quarter.concat(&quarter);
    let turned = half.rotate_vec(&Vec2::new(1, 0, 1));
    assert_eq!(turned.x, -1);
    assert_eq!(turned.y, 0);
    assert_eq!(turned.den, 1);
}

#[test]
fn pythagorean_rotation_of_x_axis() {
    let r = Basis2::from_angle(&Angle::new(3, 4, 5));
    let turned = r.rotate_vec(&Vec2::new(1, 0, 1));
    assert_eq!(turned, Vec2::new(3, 4, 5));
}

#[test]
fn inverse_law() {
    let r = Basis2::from_angle(&Angle::new(3, 4, 5));
    let id = Basis2::identity();
    assert!(r.concat(&r.invert()).approx_eq(&id));
    assert!(r.invert().concat(&r).approx_eq(&id));
}

#[test]
fn inverse_restores_vectors() {
    let r = Basis2::from_angle(&Angle::new(5, 12, 13));
    let v = Vec2::new(9, -2, 4);
    let there = r.rotate_vec(&v);
    let back = r.invert().rotate_vec(&there);
    // Same vector value, at a denominator scaled by 13 * 13.
    assert_eq!(back.x as i128 * v.den as i128, v.x as i128 * back.den as i128);
    assert_eq!(back.y as i128 * v.den as i128, v.y as i128 * back.den as i128);
}

#[test]
fn concat_is_associative() {
    let a = Basis2::from_angle(&Angle::new(3, 4, 5));
    let b = Basis2::from_angle(&Angle::new(5, 12, 13));
    let c = Basis2::from_angle(&Angle::new(8, 15, 17));
    assert_eq!(a.concat(&b).concat(&c), a.concat(&b.concat(&c)));
}

#[test]
fn concat_applies_right_factor_first() {
    // A quarter turn after the Pythagorean rotation: (1,0) -> (3/5,4/5) -> (-4/5,3/5).
    let quarter = Basis2::from_angle(&Angle::new(0, 1, 1));
    let pyth = Basis2::from_angle(&Angle::new(3, 4, 5));
    let both = quarter.concat(&pyth);
    let turned = both.rotate_vec(&Vec2::new(1, 0, 1));
    assert_eq!(turned, Vec2::new(-4, 3, 5));
}

#[test]
fn in_place_variants_match_pure_forms() {
    let a = Basis2::from_angle(&Angle::new(3, 4, 5));
    let b = Basis2::from_angle(&Angle::new(5, 12, 13));
    let mut m = a;
    m.concat_self(&b);
    assert_eq!(m, a.concat(&b));
    let mut n = a;
    n.invert_self();
    assert_eq!(n, a.invert());
}

#[test]
fn rotate_point_matches_rotate_vec() {
    let r = Basis2::from_angle(&Angle::new(3, 4, 5));
    let p = Point2::new(2, 1, 1);
    let q = rotate_point2(&r, &p);
    let via_vec = Point2::from_vec(&r.rotate_vec(&p.to_vec()));
    assert_eq!(q, via_vec);
    assert_eq!(q, Point2::new(2, 11, 5));
}

#[test]
fn rotate_ray_keeps_origin() {
    let r = Basis2::from_angle(&Angle::new(3, 4, 5));
    let ray = Ray2::new(Point2::new(6, 7, 3), Vec2::new(1, 0, 1));
    let s = rotate_ray2(&r, &ray);
    assert_eq!(s.origin, ray.origin);
    assert_eq!(s.direction, r.rotate_vec(&ray.direction));
}

#[test]
fn transpose_is_the_inverse_matrix() {
    let mut m = Basis2::from_angle(&Angle::new(3, 4, 5));
    m.concat_self(&Basis2::from_angle(&Angle::new(5, 12, 13)));
    m.invert_self();
    // Orthogonality survives the in-place operations: the columns of the
    // wrapped matrix are unit length and perpendicular.
    let mat = m.to_mat2();
    let d = mat.den as i128;
    assert_eq!((mat.m00 as i128).pow(2) + (mat.m10 as i128).pow(2), d * d);
    assert_eq!((mat.m01 as i128).pow(2) + (mat.m11 as i128).pow(2), d * d);
    assert_eq!(
        mat.m00 as i128 * mat.m01 as i128 + mat.m10 as i128 * mat.m11 as i128,
        0
    );
    // And the inverse really is the transpose.
    assert_eq!(m.invert().to_mat2(), m.to_mat2().transpose());
}

#[test]
fn approx_eq_eps_bounds_entry_difference() {
    let a = Basis2::from_angle(&Angle::new(3, 4, 5));
    let b = Basis2::from_angle(&Angle::new(4, 3, 5));
    // Every entry differs by exactly 1/5.
    assert!(a.approx_eq_eps(&b, 1, 4));
    assert!(!a.approx_eq_eps(&b, 1, 10));
    assert!(!a.approx_eq(&b));
}

#[test]
fn default_epsilon_is_zero() {
    let eps = <Basis2 as Rotation2>::approx_epsilon();
    assert_eq!(eps, (0, 1));
}

#[test]
fn conversions_preserve_the_matrix() {
    let r = Basis2::from_angle(&Angle::new(0, 1, 1));
    let m = r.to_mat2();
    assert_eq!((m.m00, m.m01, m.m10, m.m11, m.den), (0, -1, 1, 0, 1));
    assert_eq!(r.as_mat2(), &m);
    assert_eq!(r.to_rot2(), r);
}
