use scratchapixel::geometry::vector::Vec3;

#[test]
fn should_be_created_with_constructor() {
    let v: Vec3<f64> = Vec3::new(0.0, 1.0, 2.0);

    assert_eq!(v, Vec3 { x: 0.0, y: 1.0, z: 2.0 });
}

#[test]
fn should_initialize_to_zero_vector() {
    let v: Vec3<f64> = Vec3::zero();

    assert_eq!(v, Vec3::<f64>{ x: 0.0, y: 0.0, z: 0.0 });
}

#[test]
fn should_initialize_to_diagonal_vector() {
    let v: Vec3<f64> = Vec3::diagonal(1.0);

    assert_eq!(v, Vec3::<f64>{ x: 1.0, y: 1.0, z: 1.0 });
}

#[test]
fn should_know_dot_product() {
    let u: Vec3<f64> = Vec3::diagonal(1.0);
    let v: Vec3<f64> = Vec3::new(0.0, 1.0, 2.0);

    let dot_product: f64 = u.dotProduct(v);

    assert_eq!(dot_product, 3.0);
}

#[test]
fn should_know_cross_product() {
    let v: Vec3<f64> = Vec3::new(1.0, 0.0, 0.0);
    let w: Vec3<f64> = Vec3::new(0.0, 1.0, 0.0);

    let product = v.crossProduct(w);

    assert_eq!(product, Vec3 { x: 0.0, y: 0.0, z: 1.0 });
}

#[test]
fn should_form_vector_sum() {
    let v: Vec3<f64> = Vec3::new(1.0, 0.0, 0.0);
    let w: Vec3<f64> = Vec3::new(0.0, 1.0, 0.0);

    let sum = v + w;

    assert_eq!(sum, Vec3 { x: 1.0, y: 1.0, z: 0.0 });
}

#[test]
fn should_form_vector_difference() {
    let v: Vec3<f64> = Vec3::new(1.0, 0.0, 0.0);
    let w: Vec3<f64> = Vec3::new(0.0, 1.0, 0.0);

    let sum = v - w;

    assert_eq!(sum, Vec3 { x: 1.0, y: -1.0, z: 0.0 });
}

#[test]
fn should_form_scalar_multiplication() {
    let v: Vec3<f64> = Vec3::new(1.0, 0.0, 0.0);
    let c: f64 = 2.0;

    let scalar = v * c;

    assert_eq!(scalar, Vec3 { x: 2.0, y: 0.0, z: 0.0 });
}

#[test]
fn dot_product_is_symmetric() {
    let a: Vec3<i64> = Vec3::new(3, -4, 5);
    let b: Vec3<i64> = Vec3::new(-2, 7, 1);
    assert_eq!(a.dotProduct(b), -29);
    assert_eq!(b.dotProduct(a), -29);
}

#[test]
fn cross_product_is_antisymmetric() {
    let a: Vec3<i64> = Vec3::new(3, -4, 5);
    let b: Vec3<i64> = Vec3::new(-2, 7, 1);
    let ab = a.crossProduct(b);
    let ba = b.crossProduct(a);
    assert_eq!(ab, Vec3::new(-39, -13, 13));
    assert_eq!(ba, Vec3::new(39, 13, -13));
}

#[test]
fn norm_is_the_squared_length() {
    let v: Vec3<i64> = Vec3::new(-1, 2, -3);
    assert_eq!(v.norm(), 14);
    let z: Vec3<u64> = Vec3::zero();
    assert_eq!(z.norm(), 0);
}

#[test]
fn clamp_limits_to_the_range() {
    assert_eq!(Vec3::<i64>::clamp(-5, -1, 1), -1);
    assert_eq!(Vec3::<i64>::clamp(5, -1, 1), 1);
    assert_eq!(Vec3::<i64>::clamp(0, -1, 1), 0);
    assert_eq!(Vec3::<f64>::clamp(1.0000001, -1.0, 1.0), 1.0);
}

#[test]
fn sin_theta2_is_never_negative() {
    let pole: Vec3<f64> = Vec3::new(0.0, 0.0, 1.0);
    assert_eq!(Vec3::sinTheta2(&pole), 0.0);
    let overshoot: Vec3<f64> = Vec3::new(0.0, 0.0, 1.5);
    assert_eq!(Vec3::sinTheta2(&overshoot), 0.0);
    let equator: Vec3<f64> = Vec3::new(1.0, 0.0, 0.0);
    assert_eq!(Vec3::sinTheta2(&equator), 1.0);
    assert_eq!(Vec3::cosTheta(&pole), 1.0);
}
