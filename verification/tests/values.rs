use cgmath::hsv::{to_hsva, Chan, HSV, HSVA};
use cgmath::vector::{Point2, Point3, Ray3, Vec2, Vec3};

#[test]
fn vector_zero_and_dot() {
    let z = Vec2::zero();
    assert_eq!((z.x, z.y, z.den), (0, 0, 1));
    let a = Vec2::new(3, 4, 5);
    let b = Vec2::new(1, 2, 1);
    // (3/5, 4/5) . (1, 2) = 11/5
    assert_eq!(a.dot(&b), (11, 5));
    let u = Vec3::new(1, 2, 3, 2);
    let w = Vec3::new(4, 5, 6, 1);
    // (1/2, 1, 3/2) . (4, 5, 6) = 32/2
    assert_eq!(u.dot(&w), (32, 2));
}

#[test]
fn point_difference_is_exact() {
    let p = Point2::new(1, 1, 2);
    let q = Point2::new(1, 0, 3);
    // (1/2 - 1/3, 1/2 - 0) = (1/6, 3/6)
    let d = p.sub(&q);
    assert_eq!((d.x, d.y, d.den), (1, 3, 6));
    let a = Point3::new(1, 2, 3, 1);
    let b = Point3::new(0, 1, 1, 1);
    let e = a.sub(&b);
    assert_eq!((e.x, e.y, e.z, e.den), (1, 1, 2, 1));
}

#[test]
fn points_round_trip_through_vectors() {
    let p = Point3::new(4, -1, 9, 5);
    let v = p.to_vec();
    assert_eq!(Point3::from_vec(&v), p);
    let ray = Ray3::new(p, Vec3::new(1, 0, 0, 1));
    assert_eq!(ray.origin, p);
}

#[test]
fn hsv_holds_its_channels() {
    let c = HSV::new(120i64, 1i64, 1i64);
    assert_eq!((c.h, c.s, c.v), (120, 1, 1));
    assert_eq!(c.to_hsv(), c);
}

#[test]
fn hsva_widens_and_narrows() {
    let c = HSV::new(240i64, 2i64, 3i64);
    let wide = HSVA::from_hsv_a(c, 7i64);
    assert_eq!((wide.h, wide.s, wide.v, wide.a), (240, 2, 3, 7));
    assert_eq!(wide.hsv(), c);
    let again = to_hsva(&c, 7i64);
    assert_eq!(again, wide);
    let direct = HSVA::new(240i64, 2i64, 3i64, 7i64);
    assert_eq!(direct, wide);
}

#[test]
fn pure_red_green_and_yellow() {
    let one = Chan::new(1, 1);
    let red = HSV::new(Chan::new(0, 1), one, one).to_rgb();
    assert_eq!((red.r.n, red.g.n, red.b.n, red.r.d), (60, 0, 0, 60));
    let green = HSV::new(Chan::new(120, 1), one, one).to_rgb();
    assert_eq!((green.r.n, green.g.n, green.b.n, green.r.d), (0, 60, 0, 60));
    let yellow = HSV::new(Chan::new(60, 1), one, one).to_rgb();
    assert_eq!((yellow.r.n, yellow.g.n, yellow.b.n, yellow.r.d), (60, 60, 0, 60));
}

#[test]
fn half_saturated_chartreuse() {
    // Hue 90 degrees, saturation 1/2, value 1: (3/4, 1, 1/2).
    let c = HSV::new(Chan::new(90, 1), Chan::new(1, 2), Chan::new(1, 1)).to_rgb();
    assert_eq!(c.r.d, 120);
    assert_eq!((c.r.n, c.g.n, c.b.n), (90, 120, 60));
}

#[test]
fn out_of_range_hue_greys_out() {
    // Beyond 360 degrees no sector matches; only `value - chroma` remains.
    let c = HSV::new(Chan::new(400, 1), Chan::new(1, 2), Chan::new(1, 1)).to_rgb();
    assert_eq!((c.r.n, c.g.n, c.b.n, c.r.d), (60, 60, 60, 120));
}

#[test]
fn rgba_keeps_the_opacity_channel() {
    let one = Chan::new(1, 1);
    let c = HSVA::new(Chan::new(0, 1), one, one, Chan::new(3, 7)).to_rgba();
    assert_eq!((c.r.n, c.g.n, c.b.n), (60, 0, 0));
    assert_eq!(c.a, Chan::new(3, 7));
}
