//! Vectors of three components.

use crate::math::algebra::{
    difference, field, lemma_add_then_sub, lemma_cancel, lemma_distributes_right,
    lemma_field_is_ring, lemma_mul_div, lemma_mul_one, lemma_mul_zero, lemma_square_of_quotient,
    ring,
};
use crate::math::scalar::{exact, num, total, Scalar, VecType};
use core::ops::{Add, Div, Mul, Sub};
use vstd::prelude::*;
use vstd::std_specs::ops::{AddSpec, DivSpec, MulSpec, SubSpec};

verus! {

/// A vector of three components, `x`, `y` and `z`. A plain value: two vectors are
/// equal when their components are.
#[derive(Clone, Copy, Debug, PartialEq, Eq)]
pub struct Vec3<T: VecType> {
    pub x: T,
    pub y: T,
    pub z: T,
}

impl<T: VecType> Vec3<T> {
    /// The vector with the given components.
    pub fn new(x: T, y: T, z: T) -> (v: Self)
        ensures
            v == (Vec3 { x, y, z }),
    {
        Self { x, y, z }
    }

    /// The vector whose components all equal `v`.
    pub fn all(v: T) -> (r: Self)
        ensures
            r == (Vec3 { x: v, y: v, z: v }),
    {
        Self { x: v, y: v, z: v }
    }

    /// The components as an array, `x` first.
    pub fn pod(self) -> (a: [T; 3])
        ensures
            a@ == seq![self.x, self.y, self.z],
    {
        let a = [self.x, self.y, self.z];
        assert(a@ =~= seq![self.x, self.y, self.z]);
        a
    }

    /// Applies `f` to every component, each on its own. The component type
    /// may change.
    pub fn map<E: VecType, F: Fn(T) -> E>(&self, f: F) -> (v: Vec3<E>)
        requires
            f.requires((self.x,)),
            f.requires((self.y,)),
            f.requires((self.z,)),
        ensures
            f.ensures((self.x,), v.x),
            f.ensures((self.y,), v.y),
            f.ensures((self.z,), v.z),
    {
        Vec3 { x: f(self.x), y: f(self.y), z: f(self.z) }
    }
}

impl<T: VecType + Add<Output = T>> Vec3<T> {
    /// The componentwise sum with another vector.
    pub open spec fn add_vec_spec(self, rhs: Self) -> Self {
        Vec3 { x: self.x.add_spec(rhs.x), y: self.y.add_spec(rhs.y), z: self.z.add_spec(rhs.z) }
    }

    /// The sum of every component with the scalar `rhs`.
    pub open spec fn add_scalar_spec(self, rhs: T) -> Self {
        Vec3 { x: self.x.add_spec(rhs), y: self.y.add_spec(rhs), z: self.z.add_spec(rhs) }
    }
}

/// Componentwise sum of two vectors.
impl<T: VecType + Add<Output = T>> Add<Self> for Vec3<T> {
    type Output = Self;

    fn add(self, rhs: Self) -> (r: Self) {
        Self { x: self.x + rhs.x, y: self.y + rhs.y, z: self.z + rhs.z }
    }
}

impl<T: VecType + Add<Output = T>> vstd::std_specs::ops::AddSpecImpl<Self> for Vec3<T> {
    open spec fn obeys_add_spec() -> bool {
        T::obeys_add_spec()
    }

    open spec fn add_req(self, rhs: Self) -> bool {
        self.x.add_req(rhs.x) && self.y.add_req(rhs.y) && self.z.add_req(rhs.z)
    }

    open spec fn add_spec(self, rhs: Self) -> Self {
        self.add_vec_spec(rhs)
    }
}

/// Sum of every component with one scalar.
impl<T: VecType + Add<Output = T>> Add<T> for Vec3<T> {
    type Output = Self;

    fn add(self, rhs: T) -> (r: Self) {
        Self { x: self.x + rhs, y: self.y + rhs, z: self.z + rhs }
    }
}

impl<T: VecType + Add<Output = T>> vstd::std_specs::ops::AddSpecImpl<T> for Vec3<T> {
    open spec fn obeys_add_spec() -> bool {
        T::obeys_add_spec()
    }

    open spec fn add_req(self, rhs: T) -> bool {
        self.x.add_req(rhs) && self.y.add_req(rhs) && self.z.add_req(rhs)
    }

    open spec fn add_spec(self, rhs: T) -> Self {
        self.add_scalar_spec(rhs)
    }
}

impl<T: VecType + Sub<Output = T>> Vec3<T> {
    /// The componentwise difference with another vector.
    pub open spec fn sub_vec_spec(self, rhs: Self) -> Self {
        Vec3 { x: self.x.sub_spec(rhs.x), y: self.y.sub_spec(rhs.y), z: self.z.sub_spec(rhs.z) }
    }

    /// The difference of every component with the scalar `rhs`.
    pub open spec fn sub_scalar_spec(self, rhs: T) -> Self {
        Vec3 { x: self.x.sub_spec(rhs), y: self.y.sub_spec(rhs), z: self.z.sub_spec(rhs) }
    }
}

/// Componentwise difference of two vectors.
impl<T: VecType + Sub<Output = T>> Sub<Self> for Vec3<T> {
    type Output = Self;

    fn sub(self, rhs: Self) -> (r: Self) {
        Self { x: self.x - rhs.x, y: self.y - rhs.y, z: self.z - rhs.z }
    }
}

impl<T: VecType + Sub<Output = T>> vstd::std_specs::ops::SubSpecImpl<Self> for Vec3<T> {
    open spec fn obeys_sub_spec() -> bool {
        T::obeys_sub_spec()
    }

    open spec fn sub_req(self, rhs: Self) -> bool {
        self.x.sub_req(rhs.x) && self.y.sub_req(rhs.y) && self.z.sub_req(rhs.z)
    }

    open spec fn sub_spec(self, rhs: Self) -> Self {
        self.sub_vec_spec(rhs)
    }
}

/// Difference of every component and one scalar.
impl<T: VecType + Sub<Output = T>> Sub<T> for Vec3<T> {
    type Output = Self;

    fn sub(self, rhs: T) -> (r: Self) {
        Self { x: self.x - rhs, y: self.y - rhs, z: self.z - rhs }
    }
}

impl<T: VecType + Sub<Output = T>> vstd::std_specs::ops::SubSpecImpl<T> for Vec3<T> {
    open spec fn obeys_sub_spec() -> bool {
        T::obeys_sub_spec()
    }

    open spec fn sub_req(self, rhs: T) -> bool {
        self.x.sub_req(rhs) && self.y.sub_req(rhs) && self.z.sub_req(rhs)
    }

    open spec fn sub_spec(self, rhs: T) -> Self {
        self.sub_scalar_spec(rhs)
    }
}

impl<T: VecType + Mul<Output = T>> Vec3<T> {
    /// The componentwise product with another vector.
    pub open spec fn mul_vec_spec(self, rhs: Self) -> Self {
        Vec3 { x: self.x.mul_spec(rhs.x), y: self.y.mul_spec(rhs.y), z: self.z.mul_spec(rhs.z) }
    }

    /// The product of every component with the scalar `rhs`.
    pub open spec fn mul_scalar_spec(self, rhs: T) -> Self {
        Vec3 { x: self.x.mul_spec(rhs), y: self.y.mul_spec(rhs), z: self.z.mul_spec(rhs) }
    }
}

/// Componentwise product of two vectors.
impl<T: VecType + Mul<Output = T>> Mul<Self> for Vec3<T> {
    type Output = Self;

    fn mul(self, rhs: Self) -> (r: Self) {
        Self { x: self.x * rhs.x, y: self.y * rhs.y, z: self.z * rhs.z }
    }
}

impl<T: VecType + Mul<Output = T>> vstd::std_specs::ops::MulSpecImpl<Self> for Vec3<T> {
    open spec fn obeys_mul_spec() -> bool {
        T::obeys_mul_spec()
    }

    open spec fn mul_req(self, rhs: Self) -> bool {
        self.x.mul_req(rhs.x) && self.y.mul_req(rhs.y) && self.z.mul_req(rhs.z)
    }

    open spec fn mul_spec(self, rhs: Self) -> Self {
        self.mul_vec_spec(rhs)
    }
}

/// Product of every component with one scalar.
impl<T: VecType + Mul<Output = T>> Mul<T> for Vec3<T> {
    type Output = Self;

    fn mul(self, rhs: T) -> (r: Self) {
        Self { x: self.x * rhs, y: self.y * rhs, z: self.z * rhs }
    }
}

impl<T: VecType + Mul<Output = T>> vstd::std_specs::ops::MulSpecImpl<T> for Vec3<T> {
    open spec fn obeys_mul_spec() -> bool {
        T::obeys_mul_spec()
    }

    open spec fn mul_req(self, rhs: T) -> bool {
        self.x.mul_req(rhs) && self.y.mul_req(rhs) && self.z.mul_req(rhs)
    }

    open spec fn mul_spec(self, rhs: T) -> Self {
        self.mul_scalar_spec(rhs)
    }
}

impl<T: VecType + Div<Output = T>> Vec3<T> {
    /// The componentwise quotient with another vector.
    pub open spec fn div_vec_spec(self, rhs: Self) -> Self {
        Vec3 { x: self.x.div_spec(rhs.x), y: self.y.div_spec(rhs.y), z: self.z.div_spec(rhs.z) }
    }

    /// The quotient of every component with the scalar `rhs`.
    pub open spec fn div_scalar_spec(self, rhs: T) -> Self {
        Vec3 { x: self.x.div_spec(rhs), y: self.y.div_spec(rhs), z: self.z.div_spec(rhs) }
    }
}

/// Componentwise quotient of two vectors.
impl<T: VecType + Div<Output = T>> Div<Self> for Vec3<T> {
    type Output = Self;

    fn div(self, rhs: Self) -> (r: Self) {
        Self { x: self.x / rhs.x, y: self.y / rhs.y, z: self.z / rhs.z }
    }
}

impl<T: VecType + Div<Output = T>> vstd::std_specs::ops::DivSpecImpl<Self> for Vec3<T> {
    open spec fn obeys_div_spec() -> bool {
        T::obeys_div_spec()
    }

    open spec fn div_req(self, rhs: Self) -> bool {
        self.x.div_req(rhs.x) && self.y.div_req(rhs.y) && self.z.div_req(rhs.z)
    }

    open spec fn div_spec(self, rhs: Self) -> Self {
        self.div_vec_spec(rhs)
    }
}

/// Quotient of every component by one scalar.
impl<T: VecType + Div<Output = T>> Div<T> for Vec3<T> {
    type Output = Self;

    fn div(self, rhs: T) -> (r: Self) {
        Self { x: self.x / rhs, y: self.y / rhs, z: self.z / rhs }
    }
}

impl<T: VecType + Div<Output = T>> vstd::std_specs::ops::DivSpecImpl<T> for Vec3<T> {
    open spec fn obeys_div_spec() -> bool {
        T::obeys_div_spec()
    }

    open spec fn div_req(self, rhs: T) -> bool {
        self.x.div_req(rhs) && self.y.div_req(rhs) && self.z.div_req(rhs)
    }

    open spec fn div_spec(self, rhs: T) -> Self {
        self.div_scalar_spec(rhs)
    }
}

impl<T: Scalar> Vec3<T> {
    /// The sum of the squared components.
    pub open spec fn len_sq_spec(self) -> T {
        self.x.mul_spec(self.x).add_spec(self.y.mul_spec(self.y)).add_spec(self.z.mul_spec(self.z))
    }

    /// The sum of the pairwise products of the components.
    pub open spec fn dot_spec(self, rhs: Self) -> T {
        self.x.mul_spec(rhs.x).add_spec(self.y.mul_spec(rhs.y)).add_spec(self.z.mul_spec(rhs.z))
    }

    /// The squared length.
    pub fn len_sq(&self) -> (r: T)
        requires
            total::<T>(),
        ensures
            exact::<T>() ==> r == self.len_sq_spec(),
    {
        self.x * self.x + self.y * self.y + self.z * self.z
    }

    /// The length: the square root, as `sqrt` computes it, of the squared
    /// length.
    pub fn len<F: Fn(T) -> T>(&self, sqrt: F) -> (r: T)
        requires
            total::<T>(),
            forall|v: T| sqrt.requires((v,)),
        ensures
            exact::<T>() ==> sqrt.ensures((self.len_sq_spec(),), r),
    {
        sqrt(self.len_sq())
    }

    /// The dot product.
    pub fn dot(self, rhs: Self) -> (r: T)
        requires
            total::<T>(),
        ensures
            exact::<T>() ==> r == self.dot_spec(rhs),
    {
        self.x * rhs.x + self.y * rhs.y + self.z * rhs.z
    }

    /// The vector scaled to unit length: every component divided by the
    /// length. The length is not tested: a vector of length zero is divided
    /// by zero, with whatever the scalar's division makes of that.
    pub fn norm<F: Fn(T) -> T>(self, sqrt: F) -> (r: Self)
        requires
            total::<T>(),
            forall|v: T| sqrt.requires((v,)),
        ensures
            exact::<T>() ==> exists|len: T|
                sqrt.ensures((self.len_sq_spec(),), len) && r == self.div_scalar_spec(len),
    {
        let len = self.len(sqrt);
        let r = Self { x: self.x / len, y: self.y / len, z: self.z / len };
        assert(exact::<T>() ==> sqrt.ensures((self.len_sq_spec(),), len) && r
            == self.div_scalar_spec(len));
        r
    }

    /// A vector divided by its length has the squared length one, wherever
    /// the scalars form a field, `len` squared is the squared length of the
    /// vector, and that is not zero.
    pub proof fn lemma_norm_is_unit(v: Self, len: T)
        requires
            field::<T>(),
            len.mul_spec(len) == v.len_sq_spec(),
            v.len_sq_spec() != num::<T>(0),
        ensures
            v.div_scalar_spec(len).len_sq_spec() == num::<T>(1),
    {
        lemma_field_is_ring::<T>();
        let len_sq = len.mul_spec(len);
        let unit = v.div_scalar_spec(len);
        assert(len != num::<T>(0)) by {
            lemma_mul_zero(len);
        }
        // each squared component of the unit vector, times the squared
        // length, is the squared component of the vector
        lemma_square_of_quotient(v.x, len);
        lemma_square_of_quotient(v.y, len);
        lemma_square_of_quotient(v.z, len);
        // so the whole sum, times the squared length, is the squared length
        lemma_distributes_right(
            unit.x.mul_spec(unit.x),
            unit.y.mul_spec(unit.y),
            len_sq,
        );
        lemma_distributes_right(
            unit.x.mul_spec(unit.x).add_spec(unit.y.mul_spec(unit.y)),
            unit.z.mul_spec(unit.z),
            len_sq,
        );
        assert(unit.len_sq_spec().mul_spec(len_sq) == len_sq);
        lemma_mul_one(len_sq);
        lemma_cancel(unit.len_sq_spec(), num::<T>(1), len_sq);
    }
}

impl<T: Scalar> Vec3<T> {
    /// Adding a vector and taking it away again gives the first vector
    /// back, wherever the scalars form a ring in which a difference is the
    /// sum with the negation.
    pub proof fn lemma_add_sub_cancel(a: Self, b: Self)
        requires
            ring::<T>(),
            difference::<T>(),
        ensures
            a.add_vec_spec(b).sub_vec_spec(b) == a,
    {
        lemma_add_then_sub(a.x, b.x);
        lemma_add_then_sub(a.y, b.y);
        lemma_add_then_sub(a.z, b.z);
    }

    /// Scaling a vector by anything but zero and dividing by it again
    /// gives the vector back, wherever the scalars form a field.
    pub proof fn lemma_mul_div_cancel(a: Self, s: T)
        requires
            field::<T>(),
            s != num::<T>(0),
        ensures
            a.mul_scalar_spec(s).div_scalar_spec(s) == a,
    {
        lemma_mul_div(a.x, s);
        lemma_mul_div(a.y, s);
        lemma_mul_div(a.z, s);
    }
}

/// From a tuple, in order.
impl<T: Copy> From<(T, T, T)> for Vec3<T> {
    fn from(v: (T, T, T)) -> (r: Self) {
        Self { x: v.0, y: v.1, z: v.2 }
    }
}

impl<T: Copy> vstd::std_specs::convert::FromSpecImpl<(T, T, T)> for Vec3<T> {
    open spec fn obeys_from_spec() -> bool {
        true
    }

    open spec fn from_spec(v: (T, T, T)) -> Self {
        Vec3 { x: v.0, y: v.1, z: v.2 }
    }
}

/// From an array, in order.
impl<T: Copy> From<[T; 3]> for Vec3<T> {
    fn from(v: [T; 3]) -> (r: Self) {
        Self { x: v[0], y: v[1], z: v[2] }
    }
}

impl<T: Copy> vstd::std_specs::convert::FromSpecImpl<[T; 3]> for Vec3<T> {
    open spec fn obeys_from_spec() -> bool {
        true
    }

    open spec fn from_spec(v: [T; 3]) -> Self {
        Vec3 { x: v[0], y: v[1], z: v[2] }
    }
}

/// Into an array, `x` first.
impl<T: Copy> From<Vec3<T>> for [T; 3] {
    fn from(v: Vec3<T>) -> (r: Self) {
        [v.x, v.y, v.z]
    }
}

impl<T: Copy> vstd::std_specs::convert::FromSpecImpl<Vec3<T>> for [T; 3] {
    open spec fn obeys_from_spec() -> bool {
        true
    }

    open spec fn from_spec(v: Vec3<T>) -> Self {
        [v.x, v.y, v.z]
    }
}

} // verus!
