use scratchapixel::geometry::matrix::Matrix44;
use scratchapixel::geometry::vector::Vec3;

#[test]
fn should_be_initialized_as_zero_matrix() {
    let m: Matrix44<f64> = Matrix44::zero();

    assert_eq!(m, Matrix44::<f64> { m: [
        [0.0, 0.0, 0.0, 0.0],
        [0.0, 0.0, 0.0, 0.0],
        [0.0, 0.0, 0.0, 0.0],
        [0.0, 0.0, 0.0, 0.0],
        ]});
}

#[test]
fn should_be_initialized_by_coefficients() {
    let m: Matrix44<f64> = Matrix44::new([
        [1.0, 0.0, 0.0, 0.0],
        [0.0, 2.0, 0.0, 0.0],
        [0.0, 0.0, 3.0, 0.0],
        [0.0, 0.0, 4.0, 0.0],
        ]);

    assert_eq!(m, Matrix44::<f64> { m: [
        [1.0, 0.0, 0.0, 0.0],
        [0.0, 2.0, 0.0, 0.0],
        [0.0, 0.0, 3.0, 0.0],
        [0.0, 0.0, 4.0, 0.0],
        ]});
}

#[test]
fn should_index_rows() {
    let m: Matrix44<f64> = Matrix44::new([
        [1.0, 2.0, 3.0, 4.0],
        [2.0, 3.0, 4.0, 5.0],
        [3.0, 4.0, 5.0, 6.0],
        [4.0, 5.0, 6.0, 7.0], ]);

    let row = m[1];

    assert_eq!(row, [2.0, 3.0, 4.0, 5.0]);
}

#[test]
fn should_matrix_multiply() {
    let m: Matrix44<f64> = Matrix44::diagonal(1.0, 2.0, 3.0, 4.0);
    let n: Matrix44<f64> = Matrix44::diagonal(4.0, 3.0, 2.0, 1.0);

    let product: Matrix44<f64> = m * n;

    assert_eq!(product, Matrix44::<f64> { m: [
        [4.0, 0.0, 0.0, 0.0],
        [0.0, 6.0, 0.0, 0.0],
        [0.0, 0.0, 6.0, 0.0],
        [0.0, 0.0, 0.0, 4.0],
    ]})
}

#[test]
fn should_transform_a_point() {
    let m: Matrix44<f64> = Matrix44::new([
        [1.0, 0.0, 0.0, 0.0],
        [0.0, 1.0, 0.0, 0.0],
        [0.0, 0.0, 1.0, 0.0],
        [0.5, 0.5, 0.5, 1.0],
        ]);
    let v: Vec3<f64> = Vec3::new(1.0, 2.0, 3.0);
    let mut result: Vec3<f64> = Vec3::zero();

    m.multVecMatrix(&v, &mut result);

    assert_eq!(result, Vec3::new(1.5, 2.5, 3.5));
}

#[test]
fn should_transform_a_vector() {
    let m: Matrix44<f64> = Matrix44::new([
        [1.0, 0.0, 0.0, 0.0],
        [0.0, 1.0, 0.0, 0.0],
        [0.0, 0.0, 1.0, 0.0],
        [0.5, 0.5, 0.5, 1.0],
        ]);
    let v: Vec3<f64> = Vec3::new(1.0, 2.0, 3.0);
    let mut result: Vec3<f64> = Vec3::zero();

    m.multDirMatrix(&v, &mut result);

    assert_eq!(result, Vec3::new(1.0, 2.0, 3.0));
}

#[test]
fn should_know_its_transpose() {
     let m: Matrix44<f64> = Matrix44::new([
        [ 1.0,  2.0,  3.0,  4.0],
        [ 5.0,  6.0,  7.0,  8.0],
        [ 9.0, 10.0, 11.0, 12.0],
        [13.0, 14.0, 15.0, 16.0], ]);

    let m_t = m.transpose();

    assert_eq!(m_t, Matrix44::new([
        [ 1.0,  5.0,  9.0, 13.0],
        [ 2.0,  6.0, 10.0, 14.0],
        [ 3.0,  7.0, 11.0, 15.0],
        [ 4.0,  8.0, 12.0, 16.0], ]));
}

#[test]
fn transpose_twice_gives_back_the_matrix() {
    let m: Matrix44<i64> = Matrix44::new([
        [1, -2, 3, 4],
        [5, 6, -7, 8],
        [9, 10, 11, -12],
        [13, 14, 15, 16],
    ]);
    assert_eq!(m.transpose().transpose(), m);
    assert_ne!(m.transpose(), m);
}

#[test]
fn product_of_general_matrices() {
    let a: Matrix44<i64> = Matrix44::new([
        [1, 2, 0, 0],
        [0, 1, 0, 0],
        [0, 0, 1, 3],
        [1, 0, 0, 1],
    ]);
    let b: Matrix44<i64> = Matrix44::new([
        [1, 0, 0, 2],
        [0, 1, 0, 0],
        [4, 0, 1, 0],
        [0, 5, 0, 1],
    ]);
    assert_eq!(a * b, Matrix44::new([
        [1, 2, 0, 2],
        [0, 1, 0, 0],
        [4, 15, 1, 3],
        [1, 5, 0, 3],
    ]));
    assert_ne!(a * b, b * a);
}

#[test]
fn integer_diagonal_product() {
    let m: Matrix44<u64> = Matrix44::diagonal(1, 2, 3, 4);
    let n: Matrix44<u64> = Matrix44::diagonal(4, 3, 2, 1);
    assert_eq!(m * n, Matrix44::diagonal(4, 6, 6, 4));
    assert_eq!(Matrix44::<u64>::zero(), Matrix44::diagonal(0, 0, 0, 0));
}

#[test]
fn integer_translation_moves_points_not_directions() {
    let m: Matrix44<u64> = Matrix44::new([
        [1, 0, 0, 0],
        [0, 1, 0, 0],
        [0, 0, 1, 0],
        [5, 6, 7, 1],
    ]);
    let v: Vec3<u64> = Vec3::new(1, 2, 3);
    let mut point: Vec3<u64> = Vec3::zero();
    m.multVecMatrix(&v, &mut point);
    assert_eq!(point, Vec3::new(6, 8, 10));
    let mut direction: Vec3<u64> = Vec3::zero();
    m.multDirMatrix(&v, &mut direction);
    assert_eq!(direction, v);
}

#[test]
fn point_is_divided_by_its_homogeneous_coordinate() {
    let m: Matrix44<f64> = Matrix44::diagonal(1.0, 1.0, 1.0, 2.0);
    let v: Vec3<f64> = Vec3::new(2.0, 4.0, 6.0);
    let mut result: Vec3<f64> = Vec3::zero();
    m.multVecMatrix(&v, &mut result);
    assert_eq!(result, Vec3::new(1.0, 2.0, 3.0));
}

#[test]
fn point_with_zero_homogeneous_coordinate_is_not_divided() {
    let m: Matrix44<f64> = Matrix44::diagonal(1.0, 1.0, 1.0, 0.0);
    let v: Vec3<f64> = Vec3::new(2.0, 4.0, 6.0);
    let mut result: Vec3<f64> = Vec3::zero();
    m.multVecMatrix(&v, &mut result);
    assert_eq!(result, Vec3::new(2.0, 4.0, 6.0));
}
