use std::ops::{Add, Div, Index, Mul, Sub};
use vstd::prelude::*;
use vstd::std_specs::cmp::PartialEqSpec;
use vstd::std_specs::convert::FromSpec;
use vstd::std_specs::ops::{AddSpec, DivSpec, MulSpec, MulSpecImpl, SubSpec};

use crate::geometry::vector::{obeys_arith, one_of, zero_of, Vec3};

verus! {

/// A 4x4 matrix over a numeric type `T`, stored row by row.
#[derive(PartialEq, Debug, Clone, Copy)]
pub struct Matrix44<T> {
    pub m: [[T; 4]; 4],
}

/// `m[i][0] * n[0][j] + m[i][1] * n[1][j] + m[i][2] * n[2][j] + m[i][3] * n[3][j]`,
/// evaluated from the left.
pub open spec fn product_entry<T: Add<Output = T> + Sub<Output = T> + Mul<Output = T>>(
    m: [[T; 4]; 4],
    n: [[T; 4]; 4],
    i: int,
    j: int,
) -> T {
    m[i][0].mul_spec(n[0][j]).add_spec(m[i][1].mul_spec(n[1][j])).add_spec(
        m[i][2].mul_spec(n[2][j]),
    ).add_spec(m[i][3].mul_spec(n[3][j]))
}

/// Every step of `product_entry(m, n, i, j)` is defined (for integers: does not overflow).
pub open spec fn product_entry_defined<T: Add<Output = T> + Sub<Output = T> + Mul<Output = T>>(
    m: [[T; 4]; 4],
    n: [[T; 4]; 4],
    i: int,
    j: int,
) -> bool {
    let p0 = m[i][0].mul_spec(n[0][j]);
    let p1 = m[i][1].mul_spec(n[1][j]);
    let p2 = m[i][2].mul_spec(n[2][j]);
    let p3 = m[i][3].mul_spec(n[3][j]);
    &&& m[i][0].mul_req(n[0][j])
    &&& m[i][1].mul_req(n[1][j])
    &&& m[i][2].mul_req(n[2][j])
    &&& m[i][3].mul_req(n[3][j])
    &&& p0.add_req(p1)
    &&& p0.add_spec(p1).add_req(p2)
    &&& p0.add_spec(p1).add_spec(p2).add_req(p3)
}

/// Every step of every entry of the product `m * n` is defined.
pub open spec fn product_defined<T: Add<Output = T> + Sub<Output = T> + Mul<Output = T>>(
    m: [[T; 4]; 4],
    n: [[T; 4]; 4],
) -> bool {
    forall|i: int, j: int| 0 <= i < 4 && 0 <= j < 4 ==> #[trigger] product_entry_defined(m, n, i, j)
}

/// `m * n`: entry `(i, j)` is `product_entry(m, n, i, j)`.
pub open spec fn product_spec<T: Add<Output = T> + Sub<Output = T> + Mul<Output = T>>(
    m: [[T; 4]; 4],
    n: [[T; 4]; 4],
) -> [[T; 4]; 4] {
    [
        [product_entry(m, n, 0, 0), product_entry(m, n, 0, 1), product_entry(m, n, 0, 2), product_entry(m, n, 0, 3)],
        [product_entry(m, n, 1, 0), product_entry(m, n, 1, 1), product_entry(m, n, 1, 2), product_entry(m, n, 1, 3)],
        [product_entry(m, n, 2, 0), product_entry(m, n, 2, 1), product_entry(m, n, 2, 2), product_entry(m, n, 2, 3)],
        [product_entry(m, n, 3, 0), product_entry(m, n, 3, 1), product_entry(m, n, 3, 2), product_entry(m, n, 3, 3)],
    ]
}

/// Column `c` of the row vector `(v.x, v.y, v.z)` times the upper 3x3 block of `m`:
/// `v.x * m[0][c] + v.y * m[1][c] + v.z * m[2][c]`.
pub open spec fn linear_spec<T: Add<Output = T> + Sub<Output = T> + Mul<Output = T>>(
    m: [[T; 4]; 4],
    v: Vec3<T>,
    c: int,
) -> T {
    v.x.mul_spec(m[0][c]).add_spec(v.y.mul_spec(m[1][c])).add_spec(v.z.mul_spec(m[2][c]))
}

/// Every step of `linear_spec(m, v, c)` is defined.
pub open spec fn linear_defined<T: Add<Output = T> + Sub<Output = T> + Mul<Output = T>>(
    m: [[T; 4]; 4],
    v: Vec3<T>,
    c: int,
) -> bool {
    &&& v.x.mul_req(m[0][c])
    &&& v.y.mul_req(m[1][c])
    &&& v.z.mul_req(m[2][c])
    &&& v.x.mul_spec(m[0][c]).add_req(v.y.mul_spec(m[1][c]))
    &&& v.x.mul_spec(m[0][c]).add_spec(v.y.mul_spec(m[1][c])).add_req(v.z.mul_spec(m[2][c]))
}

/// Column `c` of the homogeneous point `(v.x, v.y, v.z, 1)` times `m`.
pub open spec fn affine_spec<T: Add<Output = T> + Sub<Output = T> + Mul<Output = T>>(
    m: [[T; 4]; 4],
    v: Vec3<T>,
    c: int,
) -> T {
    linear_spec(m, v, c).add_spec(m[3][c])
}

/// Every step of `affine_spec(m, v, c)` is defined.
pub open spec fn affine_defined<T: Add<Output = T> + Sub<Output = T> + Mul<Output = T>>(
    m: [[T; 4]; 4],
    v: Vec3<T>,
    c: int,
) -> bool {
    linear_defined(m, v, c) && linear_spec(m, v, c).add_req(m[3][c])
}

/// The direction `v` transformed by `m`: no translation and no division.
pub open spec fn direction_spec<T: Add<Output = T> + Sub<Output = T> + Mul<Output = T>>(
    m: [[T; 4]; 4],
    v: Vec3<T>,
) -> Vec3<T> {
    Vec3 { x: linear_spec(m, v, 0), y: linear_spec(m, v, 1), z: linear_spec(m, v, 2) }
}

/// Every step of `direction_spec(m, v)` is defined.
pub open spec fn direction_defined<T: Add<Output = T> + Sub<Output = T> + Mul<Output = T>>(
    m: [[T; 4]; 4],
    v: Vec3<T>,
) -> bool {
    linear_defined(m, v, 0) && linear_defined(m, v, 1) && linear_defined(m, v, 2)
}

/// Whether the homogeneous coordinate `w` is left as it is: it is the multiplicative or
/// the additive identity.
pub open spec fn skips_divide<T: PartialEq + From<u8>>(w: T) -> bool {
    w.eq_spec(&one_of::<T>()) || w.eq_spec(&zero_of::<T>())
}

/// The point `v` transformed by `m`; its coordinates are divided by the resulting
/// homogeneous coordinate `w` unless `skips_divide(w)`.
pub open spec fn point_spec<
    T: Add<Output = T> + Sub<Output = T> + Mul<Output = T> + Div<Output = T> + PartialEq + From<u8>,
>(m: [[T; 4]; 4], v: Vec3<T>) -> Vec3<T> {
    let w = affine_spec(m, v, 3);
    if skips_divide(w) {
        Vec3 { x: affine_spec(m, v, 0), y: affine_spec(m, v, 1), z: affine_spec(m, v, 2) }
    } else {
        Vec3 {
            x: affine_spec(m, v, 0).div_spec(w),
            y: affine_spec(m, v, 1).div_spec(w),
            z: affine_spec(m, v, 2).div_spec(w),
        }
    }
}

/// Every step of `point_spec(m, v)` is defined, the divisions included where they
/// take place.
pub open spec fn point_defined<
    T: Add<Output = T> + Sub<Output = T> + Mul<Output = T> + Div<Output = T> + PartialEq + From<u8>,
>(m: [[T; 4]; 4], v: Vec3<T>) -> bool {
    let w = affine_spec(m, v, 3);
    &&& affine_defined(m, v, 0)
    &&& affine_defined(m, v, 1)
    &&& affine_defined(m, v, 2)
    &&& affine_defined(m, v, 3)
    &&& !skips_divide(w) ==> {
        &&& affine_spec(m, v, 0).div_req(w)
        &&& affine_spec(m, v, 1).div_req(w)
        &&& affine_spec(m, v, 2).div_req(w)
    }
}

/// `m` with rows and columns exchanged: entry `(i, j)` is `m[j][i]`.
pub open spec fn transpose_spec<T>(m: [[T; 4]; 4]) -> [[T; 4]; 4] {
    [
        [m[0][0], m[1][0], m[2][0], m[3][0]],
        [m[0][1], m[1][1], m[2][1], m[3][1]],
        [m[0][2], m[1][2], m[2][2], m[3][2]],
        [m[0][3], m[1][3], m[2][3], m[3][3]],
    ]
}

/// The translation by `(tx, ty, tz)`: identity in the upper 3x3 block and
/// `(tx, ty, tz, 1)` as the last row.
pub open spec fn translation_spec(tx: u64, ty: u64, tz: u64) -> [[u64; 4]; 4] {
    [[1, 0, 0, 0], [0, 1, 0, 0], [0, 0, 1, 0], [tx, ty, tz, 1]]
}

/// Transposing twice gives back the matrix.
pub proof fn lemma_transpose_involutive<T>(m: [[T; 4]; 4])
    ensures
        transpose_spec(transpose_spec(m)) == m,
{
    let t = transpose_spec(transpose_spec(m));
    assert(t[0] =~= m[0]);
    assert(t[1] =~= m[1]);
    assert(t[2] =~= m[2]);
    assert(t[3] =~= m[3]);
    assert(t =~= m);
}

/// A translation moves a point by `(tx, ty, tz)` and leaves a direction as it is
/// (for unsigned 64-bit coordinates, where the sums do not overflow).
pub proof fn lemma_translation(tx: u64, ty: u64, tz: u64, v: Vec3<u64>)
    requires
        v.x + tx <= u64::MAX,
        v.y + ty <= u64::MAX,
        v.z + tz <= u64::MAX,
    ensures
        point_defined(translation_spec(tx, ty, tz), v),
        point_spec(translation_spec(tx, ty, tz), v) == (Vec3 {
            x: (v.x + tx) as u64,
            y: (v.y + ty) as u64,
            z: (v.z + tz) as u64,
        }),
        direction_defined(translation_spec(tx, ty, tz), v),
        direction_spec(translation_spec(tx, ty, tz), v) == v,
{
}

impl<T: Copy> Matrix44<T> {
    /// The matrix whose entries are all `T::from(0u8)`.
    pub fn zero() -> (r: Matrix44<T>) where T: From<u8>
        ensures
            forall|i: int, j: int| 0 <= i < 4 && 0 <= j < 4 ==> #[trigger] r.m[i][j] == r.m[0][0],
            T::obeys_from_spec() ==> r.m[0][0] == zero_of::<T>(),
    {
        let z = T::from(0u8);
        Matrix44 { m: [[z, z, z, z], [z, z, z, z], [z, z, z, z], [z, z, z, z]] }
    }

    /// `p`, `q`, `r`, `s` down the main diagonal and `T::from(0u8)` elsewhere.
    pub fn diagonal(p: T, q: T, r: T, s: T) -> (d: Matrix44<T>) where T: From<u8>
        ensures
            d.m[0][0] == p && d.m[1][1] == q && d.m[2][2] == r && d.m[3][3] == s,
            forall|i: int, j: int|
                0 <= i < 4 && 0 <= j < 4 && i != j ==> #[trigger] d.m[i][j] == d.m[0][1],
            T::obeys_from_spec() ==> d.m[0][1] == zero_of::<T>(),
    {
        let z = T::from(0u8);
        Matrix44 { m: [[p, z, z, z], [z, q, z, z], [z, z, r, z], [z, z, z, s]] }
    }

    pub fn new(mm: [[T; 4]; 4]) -> (r: Matrix44<T>)
        ensures
            r.m == mm,
    {
        Matrix44 { m: mm }
    }

    /// Transforms the point `src`, taken as `(x, y, z, 1)`, and writes the result to
    /// `dst`, divided by the homogeneous coordinate unless that is 0 or 1.
    #[allow(non_snake_case)]
    pub fn multVecMatrix(self, src: &Vec3<T>, dst: &mut Vec3<T>) where
        T: Add<Output = T> + Sub<Output = T> + Mul<Output = T> + Div<Output = T> + PartialEq + From<u8>,

        requires
            obeys_arith::<T>(),
            T::obeys_div_spec(),
            T::obeys_eq_spec(),
            T::obeys_from_spec(),
            point_defined(self.m, *src),
        ensures
            *final(dst) == point_spec(self.m, *src),
    {
        let m = self.m;
        dst.x = src.x * m[0][0] + src.y * m[1][0] + src.z * m[2][0] + m[3][0];
        dst.y = src.x * m[0][1] + src.y * m[1][1] + src.z * m[2][1] + m[3][1];
        dst.z = src.x * m[0][2] + src.y * m[1][2] + src.z * m[2][2] + m[3][2];
        let w = src.x * m[0][3] + src.y * m[1][3] + src.z * m[2][3] + m[3][3];
        if w != T::from(1u8) && w != T::from(0u8) {
            dst.x = dst.x / w;
            dst.y = dst.y / w;
            dst.z = dst.z / w;
        }
    }

    /// Transforms the direction `src` by the upper 3x3 block and writes it to `dst`.
    #[allow(non_snake_case)]
    pub fn multDirMatrix(self, src: &Vec3<T>, dst: &mut Vec3<T>) where
        T: Add<Output = T> + Sub<Output = T> + Mul<Output = T>,

        requires
            obeys_arith::<T>(),
            direction_defined(self.m, *src),
        ensures
            *final(dst) == direction_spec(self.m, *src),
    {
        let m = self.m;
        dst.x = src.x * m[0][0] + src.y * m[1][0] + src.z * m[2][0];
        dst.y = src.x * m[0][1] + src.y * m[1][1] + src.z * m[2][1];
        dst.z = src.x * m[0][2] + src.y * m[1][2] + src.z * m[2][2];
    }

    /// The matrix with rows and columns exchanged.
    pub fn transpose(self) -> (t: Matrix44<T>)
        ensures
            t.m == transpose_spec(self.m),
    {
        let m = self.m;
        Matrix44::new(
            [
                [m[0][0], m[1][0], m[2][0], m[3][0]],
                [m[0][1], m[1][1], m[2][1], m[3][1]],
                [m[0][2], m[1][2], m[2][2], m[3][2]],
                [m[0][3], m[1][3], m[2][3], m[3][3]],
            ],
        )
    }
}

impl<T> Index<usize> for Matrix44<T> {
    type Output = [T; 4];

    fn index(&self, index: usize) -> (r: &[T; 4])
        ensures
            *r == self.m[index as int],
    {
        &self.m[index]
    }
}

/// Rows are indexed from 0 to 3.
impl<T> vstd::std_specs::core::IndexSpecImpl<usize> for Matrix44<T> {
    open spec fn index_req(&self, index: &usize) -> bool {
        *index < 4
    }
}

impl<T: Copy + Add<Output = T> + Sub<Output = T> + Mul<Output = T>> Matrix44<T> {
    fn product_row(m: &[[T; 4]; 4], n: &[[T; 4]; 4], i: usize) -> (row: [T; 4])
        requires
            i < 4,
            obeys_arith::<T>(),
            product_defined(*m, *n),
        ensures
            forall|j: int| 0 <= j < 4 ==> #[trigger] row[j] == product_entry(*m, *n, i as int, j),
    {
        assert(product_entry_defined(*m, *n, i as int, 0));
        assert(product_entry_defined(*m, *n, i as int, 1));
        assert(product_entry_defined(*m, *n, i as int, 2));
        assert(product_entry_defined(*m, *n, i as int, 3));
        let r = m[i];
        [
            r[0] * n[0][0] + r[1] * n[1][0] + r[2] * n[2][0] + r[3] * n[3][0],
            r[0] * n[0][1] + r[1] * n[1][1] + r[2] * n[2][1] + r[3] * n[3][1],
            r[0] * n[0][2] + r[1] * n[1][2] + r[2] * n[2][2] + r[3] * n[3][2],
            r[0] * n[0][3] + r[1] * n[1][3] + r[2] * n[2][3] + r[3] * n[3][3],
        ]
    }
}

impl<T: Copy + Add<Output = T> + Sub<Output = T> + Mul<Output = T>> Mul<Matrix44<T>> for Matrix44<T> {
    type Output = Matrix44<T>;

    fn mul(self, rhs: Matrix44<T>) -> (r: Matrix44<T>) {
        let result = [
            Matrix44::product_row(&self.m, &rhs.m, 0),
            Matrix44::product_row(&self.m, &rhs.m, 1),
            Matrix44::product_row(&self.m, &rhs.m, 2),
            Matrix44::product_row(&self.m, &rhs.m, 3),
        ];
        let ghost p = product_spec(self.m, rhs.m);
        assert(result[0] =~= p[0]);
        assert(result[1] =~= p[1]);
        assert(result[2] =~= p[2]);
        assert(result[3] =~= p[3]);
        assert(result =~= p);
        Matrix44::new(result)
    }
}

/// The matrix product.
impl<T: Copy + Add<Output = T> + Sub<Output = T> + Mul<Output = T>> MulSpecImpl<Matrix44<T>> for Matrix44<T> {
    open spec fn obeys_mul_spec() -> bool {
        obeys_arith::<T>()
    }

    open spec fn mul_req(self, rhs: Matrix44<T>) -> bool {
        obeys_arith::<T>() && product_defined(self.m, rhs.m)
    }

    open spec fn mul_spec(self, rhs: Matrix44<T>) -> Matrix44<T> {
        Matrix44 { m: product_spec(self.m, rhs.m) }
    }
}

} // verus!
