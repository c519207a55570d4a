use std::cmp::Ordering;
use std::ops::{Add, Mul, Sub};
use vstd::prelude::*;
use vstd::std_specs::cmp::PartialOrdSpec;
use vstd::std_specs::convert::FromSpec;
use vstd::std_specs::ops::{AddSpec, AddSpecImpl, MulSpec, MulSpecImpl, SubSpec, SubSpecImpl};

verus! {

/// A three-component vector over a numeric type `T`.
#[derive(PartialEq, Debug, Clone, Copy)]
pub struct Vec3<T> {
    pub x: T,
    pub y: T,
    pub z: T,
}

/// The additive identity of `T`, as converted from `0u8`.
pub open spec fn zero_of<T: From<u8>>() -> T {
    T::from_spec(0u8)
}

/// The multiplicative identity of `T`, as converted from `1u8`.
pub open spec fn one_of<T: From<u8>>() -> T {
    T::from_spec(1u8)
}

/// Whether `+`, `-` and `*` on `T` behave as vstd's operator specifications say
/// (true of every primitive integer type).
pub open spec fn obeys_arith<T: Add<Output = T> + Sub<Output = T> + Mul<Output = T>>() -> bool {
    T::obeys_add_spec() && T::obeys_sub_spec() && T::obeys_mul_spec()
}

/// `a.x * b.x + a.y * b.y + a.z * b.z`, evaluated from the left.
pub open spec fn dot_spec<T: Add<Output = T> + Sub<Output = T> + Mul<Output = T>>(
    a: Vec3<T>,
    b: Vec3<T>,
) -> T {
    a.x.mul_spec(b.x).add_spec(a.y.mul_spec(b.y)).add_spec(a.z.mul_spec(b.z))
}

/// Every step of `dot_spec(a, b)` is defined (for integers: does not overflow).
pub open spec fn dot_defined<T: Add<Output = T> + Sub<Output = T> + Mul<Output = T>>(
    a: Vec3<T>,
    b: Vec3<T>,
) -> bool {
    &&& a.x.mul_req(b.x)
    &&& a.y.mul_req(b.y)
    &&& a.z.mul_req(b.z)
    &&& a.x.mul_spec(b.x).add_req(a.y.mul_spec(b.y))
    &&& a.x.mul_spec(b.x).add_spec(a.y.mul_spec(b.y)).add_req(a.z.mul_spec(b.z))
}

/// One component of a cross product: `p * q - r * s`.
pub open spec fn cross_term<T: Add<Output = T> + Sub<Output = T> + Mul<Output = T>>(
    p: T,
    q: T,
    r: T,
    s: T,
) -> T {
    p.mul_spec(q).sub_spec(r.mul_spec(s))
}

/// Every step of `cross_term(p, q, r, s)` is defined (for integers: does not overflow).
pub open spec fn cross_term_defined<T: Add<Output = T> + Sub<Output = T> + Mul<Output = T>>(
    p: T,
    q: T,
    r: T,
    s: T,
) -> bool {
    p.mul_req(q) && r.mul_req(s) && p.mul_spec(q).sub_req(r.mul_spec(s))
}

/// `(a.y*b.z - a.z*b.y, a.z*b.x - a.x*b.z, a.x*b.y - a.y*b.x)`.
pub open spec fn cross_spec<T: Add<Output = T> + Sub<Output = T> + Mul<Output = T>>(
    a: Vec3<T>,
    b: Vec3<T>,
) -> Vec3<T> {
    Vec3 {
        x: cross_term(a.y, b.z, a.z, b.y),
        y: cross_term(a.z, b.x, a.x, b.z),
        z: cross_term(a.x, b.y, a.y, b.x),
    }
}

/// Every step of `cross_spec(a, b)` is defined.
pub open spec fn cross_defined<T: Add<Output = T> + Sub<Output = T> + Mul<Output = T>>(
    a: Vec3<T>,
    b: Vec3<T>,
) -> bool {
    &&& cross_term_defined(a.y, b.z, a.z, b.y)
    &&& cross_term_defined(a.z, b.x, a.x, b.z)
    &&& cross_term_defined(a.x, b.y, a.y, b.x)
}

/// `value` limited to `[low, high]`: `low` where `value < low`, else `high` where
/// `value > high`, else `value`.
pub open spec fn clamp_spec<T: PartialOrd>(value: T, low: T, high: T) -> T {
    if value.partial_cmp_spec(&low) == Some(Ordering::Less) {
        low
    } else if value.partial_cmp_spec(&high) == Some(Ordering::Greater) {
        high
    } else {
        value
    }
}

/// `1 - cos²θ` for a unit direction `v` (whose `z` is `cos θ`), raised to 0 where
/// rounding has made it negative.
pub open spec fn sin_theta2_spec<T: Add<Output = T> + Sub<Output = T> + Mul<Output = T> + PartialOrd + From<u8>>(
    v: Vec3<T>,
) -> T {
    let d = one_of::<T>().sub_spec(v.z.mul_spec(v.z));
    if d.partial_cmp_spec(&zero_of::<T>()) matches Some(Ordering::Greater | Ordering::Equal) {
        d
    } else {
        zero_of::<T>()
    }
}

/// The dot product is symmetric (for 64-bit integer components).
pub proof fn lemma_dot_symmetric(a: Vec3<i64>, b: Vec3<i64>)
    ensures
        dot_defined(a, b) == dot_defined(b, a),
        dot_spec(a, b) == dot_spec(b, a),
{
    assert(a.x * b.x == b.x * a.x) by (nonlinear_arith);
    assert(a.y * b.y == b.y * a.y) by (nonlinear_arith);
    assert(a.z * b.z == b.z * a.z) by (nonlinear_arith);
}

/// Exchanging the operands of a cross product negates each component (for 64-bit
/// integer components, where neither product overflows).
pub proof fn lemma_cross_antisymmetric(a: Vec3<i64>, b: Vec3<i64>)
    requires
        cross_defined(a, b),
        cross_defined(b, a),
    ensures
        cross_spec(a, b).x == -cross_spec(b, a).x,
        cross_spec(a, b).y == -cross_spec(b, a).y,
        cross_spec(a, b).z == -cross_spec(b, a).z,
{
    assert(a.y * b.z == b.z * a.y) by (nonlinear_arith);
    assert(a.z * b.y == b.y * a.z) by (nonlinear_arith);
    assert(a.z * b.x == b.x * a.z) by (nonlinear_arith);
    assert(a.x * b.z == b.z * a.x) by (nonlinear_arith);
    assert(a.x * b.y == b.y * a.x) by (nonlinear_arith);
    assert(a.y * b.x == b.x * a.y) by (nonlinear_arith);
}

/// The squared length `v · v` is never negative (for 64-bit integer components).
pub proof fn lemma_norm_nonnegative(v: Vec3<i64>)
    requires
        dot_defined(v, v),
    ensures
        dot_spec(v, v) >= 0,
{
    assert(v.x * v.x >= 0) by (nonlinear_arith);
    assert(v.y * v.y >= 0) by (nonlinear_arith);
    assert(v.z * v.z >= 0) by (nonlinear_arith);
}

impl<T: Copy + Add<Output = T> + Sub<Output = T> + Mul<Output = T>> Vec3<T> {
    pub fn new(xx: T, yy: T, zz: T) -> (r: Vec3<T>)
        ensures
            r == (Vec3 { x: xx, y: yy, z: zz }),
    {
        Vec3 { x: xx, y: yy, z: zz }
    }

    /// The vector whose components are all `T::from(0u8)`.
    pub fn zero() -> (r: Vec3<T>) where T: From<u8>
        ensures
            r.x == r.y && r.y == r.z,
            T::obeys_from_spec() ==> r.x == zero_of::<T>(),
    {
        let z = T::from(0u8);
        Vec3::new(z, z, z)
    }

    pub fn diagonal(xx: T) -> (r: Vec3<T>)
        ensures
            r == (Vec3 { x: xx, y: xx, z: xx }),
    {
        Vec3::new(xx, xx, xx)
    }

    #[allow(non_snake_case)]
    pub fn dotProduct(self, rhs: Vec3<T>) -> (r: T)
        requires
            obeys_arith::<T>(),
            dot_defined(self, rhs),
        ensures
            r == dot_spec(self, rhs),
    {
        self.x * rhs.x + self.y * rhs.y + self.z * rhs.z
    }

    #[allow(non_snake_case)]
    pub fn crossProduct(self, rhs: Vec3<T>) -> (r: Vec3<T>)
        requires
            obeys_arith::<T>(),
            cross_defined(self, rhs),
        ensures
            r == cross_spec(self, rhs),
    {
        Vec3::new(
            self.y * rhs.z - self.z * rhs.y,
            self.z * rhs.x - self.x * rhs.z,
            self.x * rhs.y - self.y * rhs.x,
        )
    }

    /// The squared length, `self · self`.
    pub fn norm(&self) -> (r: T)
        requires
            obeys_arith::<T>(),
            dot_defined(*self, *self),
        ensures
            r == dot_spec(*self, *self),
    {
        self.x * self.x + self.y * self.y + self.z * self.z
    }
}

impl<T: Copy + Add<Output = T> + Sub<Output = T> + Mul<Output = T>> Add<Vec3<T>> for Vec3<T> {
    type Output = Vec3<T>;

    fn add(self, rhs: Vec3<T>) -> (r: Vec3<T>) {
        Vec3::new(self.x + rhs.x, self.y + rhs.y, self.z + rhs.z)
    }
}

/// Component-wise addition.
impl<T: Copy + Add<Output = T> + Sub<Output = T> + Mul<Output = T>> AddSpecImpl<Vec3<T>> for Vec3<T> {
    open spec fn obeys_add_spec() -> bool {
        obeys_arith::<T>()
    }

    open spec fn add_req(self, rhs: Vec3<T>) -> bool {
        obeys_arith::<T>() && self.x.add_req(rhs.x) && self.y.add_req(rhs.y) && self.z.add_req(rhs.z)
    }

    open spec fn add_spec(self, rhs: Vec3<T>) -> Vec3<T> {
        Vec3 { x: self.x.add_spec(rhs.x), y: self.y.add_spec(rhs.y), z: self.z.add_spec(rhs.z) }
    }
}

impl<T: Copy + Add<Output = T> + Sub<Output = T> + Mul<Output = T>> Sub<Vec3<T>> for Vec3<T> {
    type Output = Vec3<T>;

    fn sub(self, rhs: Vec3<T>) -> (r: Vec3<T>) {
        Vec3::new(self.x - rhs.x, self.y - rhs.y, self.z - rhs.z)
    }
}

/// Component-wise subtraction.
impl<T: Copy + Add<Output = T> + Sub<Output = T> + Mul<Output = T>> SubSpecImpl<Vec3<T>> for Vec3<T> {
    open spec fn obeys_sub_spec() -> bool {
        obeys_arith::<T>()
    }

    open spec fn sub_req(self, rhs: Vec3<T>) -> bool {
        obeys_arith::<T>() && self.x.sub_req(rhs.x) && self.y.sub_req(rhs.y) && self.z.sub_req(rhs.z)
    }

    open spec fn sub_spec(self, rhs: Vec3<T>) -> Vec3<T> {
        Vec3 { x: self.x.sub_spec(rhs.x), y: self.y.sub_spec(rhs.y), z: self.z.sub_spec(rhs.z) }
    }
}

impl<T: Copy + Add<Output = T> + Sub<Output = T> + Mul<Output = T>> Mul<T> for Vec3<T> {
    type Output = Vec3<T>;

    fn mul(self, rhs: T) -> (r: Vec3<T>) {
        Vec3::new(self.x * rhs, self.y * rhs, self.z * rhs)
    }
}

/// Multiplication of each component by a scalar.
impl<T: Copy + Add<Output = T> + Sub<Output = T> + Mul<Output = T>> MulSpecImpl<T> for Vec3<T> {
    open spec fn obeys_mul_spec() -> bool {
        obeys_arith::<T>()
    }

    open spec fn mul_req(self, rhs: T) -> bool {
        obeys_arith::<T>() && self.x.mul_req(rhs) && self.y.mul_req(rhs) && self.z.mul_req(rhs)
    }

    open spec fn mul_spec(self, rhs: T) -> Vec3<T> {
        Vec3 { x: self.x.mul_spec(rhs), y: self.y.mul_spec(rhs), z: self.z.mul_spec(rhs) }
    }
}

impl<T: Copy + PartialOrd> Vec3<T> {
    /// `value` limited to the range `[low, high]`.
    pub fn clamp(value: T, low: T, high: T) -> (r: T)
        ensures
            r == value || r == low || r == high,
            T::obeys_partial_cmp_spec() ==> r == clamp_spec(value, low, high),
    {
        if value < low {
            return low;
        }
        if value > high {
            return high;
        }
        value
    }
}

impl<T: Copy + Add<Output = T> + Sub<Output = T> + Mul<Output = T> + PartialOrd + From<u8>> Vec3<T> {
    /// The cosine of the polar angle of the unit direction `v`: its `z` component.
    #[allow(non_snake_case)]
    pub fn cosTheta(v: &Vec3<T>) -> (r: T)
        ensures
            r == v.z,
    {
        v.z
    }

    /// The squared sine of the polar angle of the unit direction `v`, `1 - cos²θ`,
    /// never below 0.
    #[allow(non_snake_case)]
    pub fn sinTheta2(v: &Vec3<T>) -> (r: T)
        requires
            obeys_arith::<T>(),
            T::obeys_from_spec(),
            v.z.mul_req(v.z),
            one_of::<T>().sub_req(v.z.mul_spec(v.z)),
        ensures
            T::obeys_partial_cmp_spec() ==> r == sin_theta2_spec(*v),
    {
        let positive_result = T::from(1u8) - Vec3::cosTheta(v) * Vec3::cosTheta(v);
        let zero = T::from(0u8);
        if positive_result >= zero {
            positive_result
        } else {
            zero
        }
    }
}

} // verus!
