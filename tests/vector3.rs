use ray_vector::vector3::{cross_product, dot_product, orient_to_hemisphere, reflect, IVec3};

#[test]
fn addition_of_two_vectors() {
    let r = IVec3::from(1, 2, 3).add(IVec3::from(4, 5, 6));
    assert_eq!(r, IVec3::from(5, 7, 9));
}

#[test]
fn scalar_times_vector() {
    assert_eq!(IVec3::from(1, 0, 0).scale(2), IVec3::from(2, 0, 0));
}

#[test]
fn dot_of_orthogonal_axes_is_zero() {
    assert_eq!(dot_product(IVec3::from(1, 0, 0), IVec3::from(0, 1, 0)), 0);
}

#[test]
fn cross_of_x_and_y_is_z() {
    let r = cross_product(IVec3::from(1, 0, 0), IVec3::from(0, 1, 0));
    assert_eq!(r, IVec3::from(0, 0, 1));
}

#[test]
fn reflect_off_horizontal_surface() {
    let r = reflect(IVec3::from(1, -1, 0), IVec3::from(0, 1, 0));
    assert_eq!(r, IVec3::from(1, 1, 0));
}

#[test]
fn zero_vector_is_zero() {
    let z = IVec3::new();
    assert_eq!(z, IVec3::from(0, 0, 0));
    assert!(z.near_zero());
    assert!(!IVec3::from(0, 0, 1).near_zero());
}

#[test]
fn negation_subtraction_and_product() {
    let a = IVec3::from(3, -4, 5);
    let b = IVec3::from(-2, 7, 6);
    assert_eq!(a.neg(), IVec3::from(-3, 4, -5));
    assert_eq!(a.sub(b), IVec3::from(5, -11, -1));
    assert_eq!(a.mul(b), IVec3::from(-6, -28, 30));
}

#[test]
fn in_place_updates() {
    let mut v = IVec3::from(1, 2, 3);
    v.add_assign(IVec3::from(10, 20, 30));
    assert_eq!(v, IVec3::from(11, 22, 33));
    v.scale_assign(-3);
    assert_eq!(v, IVec3::from(-33, -66, -99));
}

#[test]
fn squared_length() {
    assert_eq!(IVec3::from(2, -3, 6).length_squared(), 49);
    assert_eq!(IVec3::new().length_squared(), 0);
}

#[test]
fn dot_is_commutative_on_values() {
    let a = IVec3::from(3, -1, 4);
    let b = IVec3::from(-5, 9, 2);
    assert_eq!(dot_product(a, b), -16);
    assert_eq!(dot_product(b, a), -16);
}

#[test]
fn cross_is_anticommutative_and_orthogonal_on_values() {
    let a = IVec3::from(3, -1, 4);
    let b = IVec3::from(-5, 9, 2);
    let ab = cross_product(a, b);
    assert_eq!(ab, IVec3::from(-38, -26, 22));
    assert_eq!(cross_product(b, a), ab.neg());
    assert_eq!(dot_product(a, ab), 0);
    assert_eq!(dot_product(b, ab), 0);
}

#[test]
fn reflect_reverses_normal_component() {
    let v = IVec3::from(4, -7, 2);
    let n = IVec3::from(0, 0, -1);
    let r = reflect(v, n);
    assert_eq!(r, IVec3::from(4, -7, -2));
    assert_eq!(dot_product(r, n), -dot_product(v, n));
    assert_eq!(r.length_squared(), v.length_squared());
}

#[test]
fn reflect_with_non_unit_normal_is_not_normalized() {
    let r = reflect(IVec3::from(1, 1, 0), IVec3::from(0, 2, 0));
    assert_eq!(r, IVec3::from(1, -7, 0));
}

#[test]
fn hemisphere_keeps_or_flips() {
    let normal = IVec3::from(0, 1, 0);
    assert_eq!(orient_to_hemisphere(IVec3::from(1, 2, 3), normal), IVec3::from(1, 2, 3));
    assert_eq!(orient_to_hemisphere(IVec3::from(1, -2, 3), normal), IVec3::from(-1, 2, -3));
    let tangent = orient_to_hemisphere(IVec3::from(1, 0, 3), normal);
    assert_eq!(tangent, IVec3::from(-1, 0, -3));
    assert!(dot_product(tangent, normal) >= 0);
}

#[test]
fn large_coordinates_are_exact() {
    let big = i64::MAX / 2;
    assert_eq!(IVec3::from(big, 0, 0).add(IVec3::from(big, 1, 0)), IVec3::from(2 * big, 1, 0));
    let r = cross_product(IVec3::from(3_000_000_000, 0, 0), IVec3::from(0, 3_000_000_000, 0));
    assert_eq!(r, IVec3::from(0, 0, 9_000_000_000_000_000_000));
}

#[test]
fn text_is_three_space_separated_decimals() {
    assert_eq!(IVec3::from(5, 7, 9).to_text(), "5 7 9");
    assert_eq!(IVec3::from(-12, 0, 100).to_text(), "-12 0 100");
    assert_eq!(IVec3::new().to_text(), "0 0 0");
}

#[test]
fn text_of_extreme_coordinates() {
    let v = IVec3::from(i64::MIN, i64::MAX, -1);
    assert_eq!(v.to_text(), "-9223372036854775808 9223372036854775807 -1");
}
