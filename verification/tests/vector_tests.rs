use weoo::scalar::Scalar;
use weoo::vector::Vec3d;
use weoo::vector::Vec4d;

fn s(v: f64) -> Scalar {
    Scalar::from_bits(v.to_bits())
}

fn v3(x: f64, y: f64, z: f64) -> Vec3d {
    Vec3d::new(s(x), s(y), s(z))
}

fn bits(v: &Vec3d) -> (u64, u64, u64) {
    (v.x.to_bits(), v.y.to_bits(), v.z.to_bits())
}

/// The planar components that a turn by `angle` gives, computed as the
/// display computes them.
fn turned(v: (f64, f64), angle: f64) -> (Scalar, Scalar) {
    (s(angle.cos() * v.0 - angle.sin() * v.1), s(angle.sin() * v.0 + angle.cos() * v.1))
}

#[test]
fn constructors_keep_the_components() {
    let v = v3(1.0, -2.0, 3.5);
    assert_eq!(bits(&v), (1.0f64.to_bits(), (-2.0f64).to_bits(), 3.5f64.to_bits()));
    let q = Vec4d::new(s(1.0), s(2.0), s(3.0), s(4.0));
    assert_eq!(q.w.to_bits(), 1.0f64.to_bits());
    assert_eq!(q.x.to_bits(), 2.0f64.to_bits());
    assert_eq!(q.y.to_bits(), 3.0f64.to_bits());
    assert_eq!(q.z.to_bits(), 4.0f64.to_bits());
    assert_eq!(bits(&Vec3d::origin()), (0, 0, 0));
}

#[test]
fn a_turn_by_nan_is_a_turn_by_zero_and_changes_nothing() {
    let v = v3(3.0, -4.0, 5.0);
    let junk = (s(f64::NAN), s(77.0));
    let by_nan = v.rotate(s(f64::NAN), junk.0, junk.1);
    let zero = turned((3.0, -4.0), 0.0);
    let by_zero = v.rotate(s(0.0), zero.0, zero.1);
    assert_eq!(bits(&by_nan), bits(&by_zero));
    assert_eq!(bits(&by_nan), bits(&v));
    let by_minus_zero = v.rotate(s(-0.0), junk.0, junk.1);
    assert_eq!(bits(&by_minus_zero), bits(&v));
}

#[test]
fn a_turn_takes_the_planar_components_and_keeps_z() {
    let v = v3(1.0, 0.0, 9.0);
    let quarter = std::f64::consts::FRAC_PI_2;
    let t = turned((1.0, 0.0), quarter);
    let r = v.rotate(s(quarter), t.0, t.1);
    assert!((f64::from_bits(r.x.to_bits()) - 0.0).abs() < 1e-12);
    assert!((f64::from_bits(r.y.to_bits()) - 1.0).abs() < 1e-12);
    assert_eq!(r.z.to_bits(), 9.0f64.to_bits());
    assert_eq!(r.x.to_bits(), t.0.to_bits());
    assert_eq!(r.y.to_bits(), t.1.to_bits());
}

#[test]
fn turning_back_recovers_the_vector() {
    let start = (120.5, -33.25);
    let angle = 1.234;
    let there = turned(start, angle);
    let v = v3(start.0, start.1, 7.0).rotate(s(angle), there.0, there.1);
    let x = f64::from_bits(v.x.to_bits());
    let y = f64::from_bits(v.y.to_bits());
    let back = turned((x, y), -angle);
    let w = v.rotate(s(-angle), back.0, back.1);
    assert!((f64::from_bits(w.x.to_bits()) - start.0).abs() < 1e-9);
    assert!((f64::from_bits(w.y.to_bits()) - start.1).abs() < 1e-9);
    assert_eq!(w.z.to_bits(), 7.0f64.to_bits());
}

#[test]
fn rotation_argument_replaces_nan_by_zero() {
    assert_eq!(Vec3d::rotation_argument(s(f64::NAN)).to_bits(), 0);
    assert_eq!(Vec3d::rotation_argument(s(1.5)).to_bits(), 1.5f64.to_bits());
    assert_eq!(Vec3d::rotation_argument(s(f64::INFINITY)).to_bits(), f64::INFINITY.to_bits());
}

#[test]
fn points_are_compared_as_numbers() {
    assert!(v3(0.0, 1.0, 2.0).equals(&v3(-0.0, 1.0, 2.0)));
    assert!(!v3(0.0, 1.0, 2.0).equals(&v3(0.0, 1.0, 2.5)));
    assert!(!v3(f64::NAN, 1.0, 2.0).equals(&v3(f64::NAN, 1.0, 2.0)));
}
