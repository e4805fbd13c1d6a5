use butterfly_soul_web::geometry::{Vec2, Viewport};
use butterfly_soul_web::scalar::Scalar;
use butterfly_soul_web::transform::{unit_transform, viewport_transform};

fn sc(num: i128, den: i128) -> Scalar {
    Scalar { num, den }
}

fn v2(x: Scalar, y: Scalar) -> Vec2 {
    Vec2 { x, y }
}

#[test]
fn viewport_transform_exact_values() {
    let vp = Viewport { position: v2(sc(10, 1), sc(20, 1)), size: v2(sc(100, 1), sc(50, 1)) };
    let t = viewport_transform(800, 600, &vp);
    // scale k = 600 / 50 = 12
    assert_eq!(t.a, sc(600, 50));
    assert_eq!(t.b, sc(0, 1));
    assert_eq!(t.c, sc(0, 1));
    assert_eq!(t.d, sc(-600, 50));
    // e = 800/2 - 10 * 12 = 280, carried as 28000/100
    assert_eq!(t.e, sc(28000, 100));
    // f = 600/2 + 20 * 12 = 540, carried as 54000/100
    assert_eq!(t.f, sc(54000, 100));
}

#[test]
fn viewport_scale_ignores_widths() {
    let vp1 = Viewport { position: v2(sc(0, 1), sc(0, 1)), size: v2(sc(100, 1), sc(50, 1)) };
    let vp2 = Viewport { position: v2(sc(7, 1), sc(9, 1)), size: v2(sc(999, 1), sc(50, 1)) };
    let t1 = viewport_transform(800, 600, &vp1);
    let t2 = viewport_transform(123, 600, &vp2);
    assert_eq!(t1.a, t2.a);
    assert_eq!(t1.d, t2.d);
}

#[test]
fn viewport_transform_negative_height() {
    let vp = Viewport { position: v2(sc(0, 1), sc(0, 1)), size: v2(sc(100, 1), sc(-50, 1)) };
    let t = viewport_transform(800, 600, &vp);
    // k = 600 / -50 = -12, with the denominator kept positive
    assert_eq!(t.a, sc(-600, 50));
    assert_eq!(t.d, sc(600, 50));
}

#[test]
fn viewport_transform_fractional_viewport() {
    // size.y = 3/2, so k = 600 / (3/2) = 400
    let vp = Viewport { position: v2(sc(0, 1), sc(0, 1)), size: v2(sc(2, 1), sc(3, 2)) };
    let t = viewport_transform(800, 600, &vp);
    assert_eq!(t.a, sc(1200, 3));
    assert_eq!(t.a.num as f64 / t.a.den as f64, 400.0);
}

#[test]
fn unit_transform_exact_values() {
    let t = unit_transform(800, 600);
    assert_eq!(t.a, sc(600, 1));
    assert_eq!(t.b, sc(0, 1));
    assert_eq!(t.c, sc(0, 1));
    assert_eq!(t.d, sc(-600, 1));
    assert_eq!(t.e, sc(800, 2));
    assert_eq!(t.f, sc(600, 2));
}

#[test]
fn unit_transform_maps_origin_to_center() {
    let t = unit_transform(640, 480);
    // pixel of logical (0,0) is (e, f) = (W/2, H/2)
    let px = t.e.num as f64 / t.e.den as f64;
    let py = t.f.num as f64 / t.f.den as f64;
    assert_eq!(px, 320.0);
    assert_eq!(py, 240.0);
    // logical (0,1) lands a full surface height above the center: y = d + f = -H/2
    let up = t.d.num as f64 / t.d.den as f64 + py;
    assert_eq!(up, -240.0);
}

#[test]
fn scalar_arithmetic_exact() {
    assert_eq!(sc(3, 2).times(sc(5, 7)), sc(15, 14));
    assert_eq!(sc(3, 2).divided_by(sc(5, 7)), sc(21, 10));
    assert_eq!(sc(3, 2).divided_by(sc(-5, 7)), sc(-21, 10));
    assert_eq!(sc(1, 2).plus(sc(1, 3)), sc(5, 6));
    assert_eq!(sc(1, 2).minus(sc(1, 3)), sc(1, 6));
    assert_eq!(sc(4, 3).negated(), sc(-4, 3));
    assert_eq!(sc(4, 3).halved(), sc(4, 6));
    assert_eq!(Scalar::from_u32(9), sc(9, 1));
    assert_eq!(Scalar::half_of_u32(9), sc(9, 2));
    assert_eq!(Scalar::from_i64(-9), sc(-9, 1));
}
