//! Vectors of four components.

use crate::math::algebra::{
    difference, field, lemma_add_then_sub, lemma_cancel, lemma_distributes_right,
    lemma_field_is_ring, lemma_mul_div, lemma_mul_one, lemma_mul_zero, lemma_square_of_quotient,
    ring,
};
use crate::math::scalar::{exact, num, total, Scalar, VecType};
use core::ops::{Add, Div, Mul, Sub};
use vstd::prelude::*;
use vstd::std_specs::ops::{AddSpec, DivSpec, MulSpec, SubSpec};

verus! {

/// A vector of four components, `x`, `y`, `z` and `w`. A plain value: two vectors are
/// equal when their components are.
#[derive(Clone, Copy, Debug, PartialEq, Eq)]
pub struct Vec4<T: VecType> {
    pub x: T,
    pub y: T,
    pub z: T,
    pub w: T,
}

impl<T: VecType> Vec4<T> {
    /// The vector with the given components.
    pub fn new(x: T, y: T, z: T, w: T) -> (v: Self)
        ensures
            v == (Vec4 { x, y, z, w }),
    {
        Self { x, y, z, w }
    }

    /// The vector whose components all equal `v`.
    pub fn all(v: T) -> (r: Self)
        ensures
            r == (Vec4 { x: v, y: v, z: v, w: v }),
    {
        Self { x: v, y: v, z: v, w: v }
    }

    /// The components as an array, `x` first.
    pub fn pod(self) -> (a: [T; 4])
        ensures
            a@ == seq![self.x, self.y, self.z, self.w],
    {
        let a = [self.x, self.y, self.z, self.w];
        assert(a@ =~= seq![self.x, self.y, self.z, self.w]);
        a
    }

    /// Applies `f` to every component, each on its own. The component type
    /// may change.
    pub fn map<E: VecType, F: Fn(T) -> E>(&self, f: F) -> (v: Vec4<E>)
        requires
            f.requires((self.x,)),
            f.requires((self.y,)),
            f.requires((self.z,)),
            f.requires((self.w,)),
        ensures
            f.ensures((self.x,), v.x),
            f.ensures((self.y,), v.y),
            f.ensures((self.z,), v.z),
            f.ensures((self.w,), v.w),
    {
        Vec4 { x: f(self.x), y: f(self.y), z: f(self.z), w: f(self.w) }
    }
}

impl<T: VecType + Add<Output = T>> Vec4<T> {
    /// The componentwise sum with another vector.
    pub open spec fn add_vec_spec(self, rhs: Self) -> Self {
        Vec4 {
            x: self.x.add_spec(rhs.x),
            y: self.y.add_spec(rhs.y),
            z: self.z.add_spec(rhs.z),
            w: self.w.add_spec(rhs.w),
        }
    }

    /// The sum of every component with the scalar `rhs`.
    pub open spec fn add_scalar_spec(self, rhs: T) -> Self {
        Vec4 {
            x: self.x.add_spec(rhs),
            y: self.y.add_spec(rhs),
            z: self.z.add_spec(rhs),
            w: self.w.add_spec(rhs),
        }
    }
}

/// Componentwise sum of two vectors.
impl<T: VecType + Add<Output = T>> Add<Self> for Vec4<T> {
    type Output = Self;

    fn add(self, rhs: Self) -> (r: Self) {
        Self { x: self.x + rhs.x, y: self.y + rhs.y, z: self.z + rhs.z, w: self.w + rhs.w }
    }
}

impl<T: VecType + Add<Output = T>> vstd::std_specs::ops::AddSpecImpl<Self> for Vec4<T> {
    open spec fn obeys_add_spec() -> bool {
        T::obeys_add_spec()
    }

    open spec fn add_req(self, rhs: Self) -> bool {
        self.x.add_req(rhs.x)
            && self.y.add_req(rhs.y)
            && self.z.add_req(rhs.z)
            && self.w.add_req(rhs.w)
    }

    open spec fn add_spec(self, rhs: Self) -> Self {
        self.add_vec_spec(rhs)
    }
}

/// Sum of every component with one scalar.
impl<T: VecType + Add<Output = T>> Add<T> for Vec4<T> {
    type Output = Self;

    fn add(self, rhs: T) -> (r: Self) {
        Self { x: self.x + rhs, y: self.y + rhs, z: self.z + rhs, w: self.w + rhs }
    }
}

impl<T: VecType + Add<Output = T>> vstd::std_specs::ops::AddSpecImpl<T> for Vec4<T> {
    open spec fn obeys_add_spec() -> bool {
        T::obeys_add_spec()
    }

    open spec fn add_req(self, rhs: T) -> bool {
        self.x.add_req(rhs) && self.y.add_req(rhs) && self.z.add_req(rhs) && self.w.add_req(rhs)
    }

    open spec fn add_spec(self, rhs: T) -> Self {
        self.add_scalar_spec(rhs)
    }
}

impl<T: VecType + Sub<Output = T>> Vec4<T> {
    /// The componentwise difference with another vector.
    pub open spec fn sub_vec_spec(self, rhs: Self) -> Self {
        Vec4 {
            x: self.x.sub_spec(rhs.x),
            y: self.y.sub_spec(rhs.y),
            z: self.z.sub_spec(rhs.z),
            w: self.w.sub_spec(rhs.w),
        }
    }

    /// The difference of every component with the scalar `rhs`.
    pub open spec fn sub_scalar_spec(self, rhs: T) -> Self {
        Vec4 {
            x: self.x.sub_spec(rhs),
            y: self.y.sub_spec(rhs),
            z: self.z.sub_spec(rhs),
            w: self.w.sub_spec(rhs),
        }
    }
}

/// Componentwise difference of two vectors.
impl<T: VecType + Sub<Output = T>> Sub<Self> for Vec4<T> {
    type Output = Self;

    fn sub(self, rhs: Self) -> (r: Self) {
        Self { x: self.x - rhs.x, y: self.y - rhs.y, z: self.z - rhs.z, w: self.w - rhs.w }
    }
}

impl<T: VecType + Sub<Output = T>> vstd::std_specs::ops::SubSpecImpl<Self> for Vec4<T> {
    open spec fn obeys_sub_spec() -> bool {
        T::obeys_sub_spec()
    }

    open spec fn sub_req(self, rhs: Self) -> bool {
        self.x.sub_req(rhs.x)
            && self.y.sub_req(rhs.y)
            && self.z.sub_req(rhs.z)
            && self.w.sub_req(rhs.w)
    }

    open spec fn sub_spec(self, rhs: Self) -> Self {
        self.sub_vec_spec(rhs)
    }
}

/// Difference of every component and one scalar.
impl<T: VecType + Sub<Output = T>> Sub<T> for Vec4<T> {
    type Output = Self;

    fn sub(self, rhs: T) -> (r: Self) {
        Self { x: self.x - rhs, y: self.y - rhs, z: self.z - rhs, w: self.w - rhs }
    }
}

impl<T: VecType + Sub<Output = T>> vstd::std_specs::ops::SubSpecImpl<T> for Vec4<T> {
    open spec fn obeys_sub_spec() -> bool {
        T::obeys_sub_spec()
    }

    open spec fn sub_req(self, rhs: T) -> bool {
        self.x.sub_req(rhs) && self.y.sub_req(rhs) && self.z.sub_req(rhs) && self.w.sub_req(rhs)
    }

    open spec fn sub_spec(self, rhs: T) -> Self {
        self.sub_scalar_spec(rhs)
    }
}

impl<T: VecType + Mul<Output = T>> Vec4<T> {
    /// The componentwise product with another vector.
    pub open spec fn mul_vec_spec(self, rhs: Self) -> Self {
        Vec4 {
            x: self.x.mul_spec(rhs.x),
            y: self.y.mul_spec(rhs.y),
            z: self.z.mul_spec(rhs.z),
            w: self.w.mul_spec(rhs.w),
        }
    }

    /// The product of every component with the scalar `rhs`.
    pub open spec fn mul_scalar_spec(self, rhs: T) -> Self {
        Vec4 {
            x: self.x.mul_spec(rhs),
            y: self.y.mul_spec(rhs),
            z: self.z.mul_spec(rhs),
            w: self.w.mul_spec(rhs),
        }
    }
}

/// Componentwise product of two vectors.
impl<T: VecType + Mul<Output = T>> Mul<Self> for Vec4<T> {
    type Output = Self;

    fn mul(self, rhs: Self) -> (r: Self) {
        Self { x: self.x * rhs.x, y: self.y * rhs.y, z: self.z * rhs.z, w: self.w * rhs.w }
    }
}

impl<T: VecType + Mul<Output = T>> vstd::std_specs::ops::MulSpecImpl<Self> for Vec4<T> {
    open spec fn obeys_mul_spec() -> bool {
        T::obeys_mul_spec()
    }

    open spec fn mul_req(self, rhs: Self) -> bool {
        self.x.mul_req(rhs.x)
            && self.y.mul_req(rhs.y)
            && self.z.mul_req(rhs.z)
            && self.w.mul_req(rhs.w)
    }

    open spec fn mul_spec(self, rhs: Self) -> Self {
        self.mul_vec_spec(rhs)
    }
}

/// Product of every component with one scalar.
impl<T: VecType + Mul<Output = T>> Mul<T> for Vec4<T> {
    type Output = Self;

    fn mul(self, rhs: T) -> (r: Self) {
        Self { x: self.x * rhs, y: self.y * rhs, z: self.z * rhs, w: self.w * rhs }
    }
}

impl<T: VecType + Mul<Output = T>> vstd::std_specs::ops::MulSpecImpl<T> for Vec4<T> {
    open spec fn obeys_mul_spec() -> bool {
        T::obeys_mul_spec()
    }

    open spec fn mul_req(self, rhs: T) -> bool {
        self.x.mul_req(rhs) && self.y.mul_req(rhs) && self.z.mul_req(rhs) && self.w.mul_req(rhs)
    }

    open spec fn mul_spec(self, rhs: T) -> Self {
        self.mul_scalar_spec(rhs)
    }
}

impl<T: VecType + Div<Output = T>> Vec4<T> {
    /// The componentwise quotient with another vector.
    pub open spec fn div_vec_spec(self, rhs: Self) -> Self {
        Vec4 {
            x: self.x.div_spec(rhs.x),
            y: self.y.div_spec(rhs.y),
            z: self.z.div_spec(rhs.z),
            w: self.w.div_spec(rhs.w),
        }
    }

    /// The quotient of every component with the scalar `rhs`.
    pub open spec fn div_scalar_spec(self, rhs: T) -> Self {
        Vec4 {
            x: self.x.div_spec(rhs),
            y: self.y.div_spec(rhs),
            z: self.z.div_spec(rhs),
            w: self.w.div_spec(rhs),
        }
    }
}

/// Componentwise quotient of two vectors.
impl<T: VecType + Div<Output = T>> Div<Self> for Vec4<T> {
    type Output = Self;

    fn div(self, rhs: Self) -> (r: Self) {
        Self { x: self.x / rhs.x, y: self.y / rhs.y, z: self.z / rhs.z, w: self.w / rhs.w }
    }
}

impl<T: VecType + Div<Output = T>> vstd::std_specs::ops::DivSpecImpl<Self> for Vec4<T> {
    open spec fn obeys_div_spec() -> bool {
        T::obeys_div_spec()
    }

    open spec fn div_req(self, rhs: Self) -> bool {
        self.x.div_req(rhs.x)
            && self.y.div_req(rhs.y)
            && self.z.div_req(rhs.z)
            && self.w.div_req(rhs.w)
    }

    open spec fn div_spec(self, rhs: Self) -> Self {
        self.div_vec_spec(rhs)
    }
}

/// Quotient of every component by one scalar.
impl<T: VecType + Div<Output = T>> Div<T> for Vec4<T> {
    type Output = Self;

    fn div(self, rhs: T) -> (r: Self) {
        Self { x: self.x / rhs, y: self.y / rhs, z: self.z / rhs, w: self.w / rhs }
    }
}

impl<T: VecType + Div<Output = T>> vstd::std_specs::ops::DivSpecImpl<T> for Vec4<T> {
    open spec fn obeys_div_spec() -> bool {
        T::obeys_div_spec()
    }

    open spec fn div_req(self, rhs: T) -> bool {
        self.x.div_req(rhs) && self.y.div_req(rhs) && self.z.div_req(rhs) && self.w.div_req(rhs)
    }

    open spec fn div_spec(self, rhs: T) -> Self {
        self.div_scalar_spec(rhs)
    }
}

impl<T: Scalar> Vec4<T> {
    /// The sum of the squared components.
    pub open spec fn len_sq_spec(self) -> T {
        self.x.mul_spec(self.x).add_spec(self.y.mul_spec(self.y)).add_spec(
            self.z.mul_spec(self.z),
        ).add_spec(self.w.mul_spec(self.w))
    }

    /// The sum of the pairwise products of the components.
    pub open spec fn dot_spec(self, rhs: Self) -> T {
        self.x.mul_spec(rhs.x).add_spec(self.y.mul_spec(rhs.y)).add_spec(
            self.z.mul_spec(rhs.z),
        ).add_spec(self.w.mul_spec(rhs.w))
    }

    /// The squared length.
    pub fn len_sq(&self) -> (r: T)
        requires
            total::<T>(),
        ensures
            exact::<T>() ==> r == self.len_sq_spec(),
    {
        self.x * self.x + self.y * self.y + self.z * self.z + self.w * self.w
    }

    /// The length: the square root, as `sqrt` computes it, of the squared
    /// length.
    pub fn len<F: Fn(T) -> T>(&self, sqrt: F) -> (r: T)
        requires
            total::<T>(),
            forall|v: T| sqrt.requires((v,)),
        ensures
            exact::<T>() ==> sqrt.ensures((self.len_sq_spec(),), r),
    {
        sqrt(self.len_sq())
    }

    /// The dot product.
    pub fn dot(self, rhs: Self) -> (r: T)
        requires
            total::<T>(),
        ensures
            exact::<T>() ==> r == self.dot_spec(rhs),
    {
        self.x * rhs.x + self.y * rhs.y + self.z * rhs.z + self.w * rhs.w
    }

    /// The vector scaled to unit length: every component divided by the
    /// length. The length is not tested: a vector of length zero is divided
    /// by zero, with whatever the scalar's division makes of that.
    pub fn norm<F: Fn(T) -> T>(self, sqrt: F) -> (r: Self)
        requires
            total::<T>(),
            forall|v: T| sqrt.requires((v,)),
        ensures
            exact::<T>() ==> exists|len: T|
                sqrt.ensures((self.len_sq_spec(),), len) && r == self.div_scalar_spec(len),
    {
        let len = self.len(sqrt);
        let r = Self { x: self.x / len, y: self.y / len, z: self.z / len, w: self.w / len };
        assert(exact::<T>() ==> sqrt.ensures((self.len_sq_spec(),), len) && r
            == self.div_scalar_spec(len));
        r
    }

    /// A vector divided by its length has the squared length one, wherever
    /// the scalars form a field, `len` squared is the squared length of the
    /// vector, and that is not zero.
    pub proof fn lemma_norm_is_unit(v: Self, len: T)
        requires
            field::<T>(),
            len.mul_spec(len) == v.len_sq_spec(),
            v.len_sq_spec() != num::<T>(0),
        ensures
            v.div_scalar_spec(len).len_sq_spec() == num::<T>(1),
    {
        lemma_field_is_ring::<T>();
        let len_sq = len.mul_spec(len);
        let unit = v.div_scalar_spec(len);
        assert(len != num::<T>(0)) by {
            lemma_mul_zero(len);
        }
        // each squared component of the unit vector, times the squared
        // length, is the squared component of the vector
        lemma_square_of_quotient(v.x, len);
        lemma_square_of_quotient(v.y, len);
        lemma_square_of_quotient(v.z, len);
        lemma_square_of_quotient(v.w, len);
        // so the whole sum, times the squared length, is the squared length
        lemma_distributes_right(
            unit.x.mul_spec(unit.x),
            unit.y.mul_spec(unit.y),
            len_sq,
        );
        lemma_distributes_right(
            unit.x.mul_spec(unit.x).add_spec(unit.y.mul_spec(unit.y)),
            unit.z.mul_spec(unit.z),
            len_sq,
        );
        lemma_distributes_right(
            unit.x.mul_spec(unit.x).add_spec(unit.y.mul_spec(unit.y)).add_spec(
                unit.z.mul_spec(unit.z),
            ),
            unit.w.mul_spec(unit.w),
            len_sq,
        );
        assert(unit.len_sq_spec().mul_spec(len_sq) == len_sq);
        lemma_mul_one(len_sq);
        lemma_cancel(unit.len_sq_spec(), num::<T>(1), len_sq);
    }
}

impl<T: Scalar> Vec4<T> {
    /// Adding a vector and taking it away again gives the first vector
    /// back, wherever the scalars form a ring in which a difference is the
    /// sum with the negation.
    pub proof fn lemma_add_sub_cancel(a: Self, b: Self)
        requires
            ring::<T>(),
            difference::<T>(),
        ensures
            a.add_vec_spec(b).sub_vec_spec(b) == a,
    {
        lemma_add_then_sub(a.x, b.x);
        lemma_add_then_sub(a.y, b.y);
        lemma_add_then_sub(a.z, b.z);
        lemma_add_then_sub(a.w, b.w);
    }

    /// Scaling a vector by anything but zero and dividing by it again
    /// gives the vector back, wherever the scalars form a field.
    pub proof fn lemma_mul_div_cancel(a: Self, s: T)
        requires
            field::<T>(),
            s != num::<T>(0),
        ensures
            a.mul_scalar_spec(s).div_scalar_spec(s) == a,
    {
        lemma_mul_div(a.x, s);
        lemma_mul_div(a.y, s);
        lemma_mul_div(a.z, s);
        lemma_mul_div(a.w, s);
    }
}

/// From a tuple, in order.
impl<T: Copy> From<(T, T, T, T)> for Vec4<T> {
    fn from(v: (T, T, T, T)) -> (r: Self) {
        Self { x: v.0, y: v.1, z: v.2, w: v.3 }
    }
}

impl<T: Copy> vstd::std_specs::convert::FromSpecImpl<(T, T, T, T)> for Vec4<T> {
    open spec fn obeys_from_spec() -> bool {
        true
    }

    open spec fn from_spec(v: (T, T, T, T)) -> Self {
        Vec4 { x: v.0, y: v.1, z: v.2, w: v.3 }
    }
}

/// From an array, in order.
impl<T: Copy> From<[T; 4]> for Vec4<T> {
    fn from(v: [T; 4]) -> (r: Self) {
        Self { x: v[0], y: v[1], z: v[2], w: v[3] }
    }
}

impl<T: Copy> vstd::std_specs::convert::FromSpecImpl<[T; 4]> for Vec4<T> {
    open spec fn obeys_from_spec() -> bool {
        true
    }

    open spec fn from_spec(v: [T; 4]) -> Self {
        Vec4 { x: v[0], y: v[1], z: v[2], w: v[3] }
    }
}

} // verus!
