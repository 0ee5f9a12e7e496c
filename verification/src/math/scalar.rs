//! Scalars: the numbers that vectors and matrices are made of.
//!
//! A scalar is any copyable type with the four arithmetic operators,
//! negation, a partial order and a conversion from small integers.
//! Contracts speak of a scalar's operators through two predicates:
//! [`total`] says that every operator accepts every operand, and [`exact`]
//! says that every operator is a function of its operands, so that its
//! result can be named in a specification.

use core::ops::{Add, Div, Mul, Neg, Sub};
use vstd::prelude::*;
use vstd::std_specs::cmp::{PartialOrdIs, PartialOrdSpec};
use vstd::std_specs::convert::FromSpec;
use vstd::std_specs::ops::{AddSpec, DivSpec, MulSpec, NegSpec, SubSpec};

verus! {

/// What a vector component must be: a plain copyable value.
pub trait VecType: Clone + Copy {

}

impl<T: Clone + Copy> VecType for T {

}

/// A number type that matrices and the camera can compute with.
pub trait Scalar: VecType + Add<Output = Self> + Sub<Output = Self> + Mul<Output = Self> + Div<
    Output = Self,
> + Neg<Output = Self> + From<i16> + PartialOrd {

}

impl<
    T: VecType + Add<Output = T> + Sub<Output = T> + Mul<Output = T> + Div<Output = T> + Neg<
        Output = T,
    > + From<i16> + PartialOrd,
> Scalar for T {

}

/// Every operator of `T` accepts every operand: no sum, difference,
/// product, quotient or negation can fail.
pub open spec fn total<T: Scalar>() -> bool {
    &&& forall|a: T, b: T| #[trigger] a.add_req(b)
    &&& forall|a: T, b: T| #[trigger] a.sub_req(b)
    &&& forall|a: T, b: T| #[trigger] a.mul_req(b)
    &&& forall|a: T, b: T| #[trigger] a.div_req(b)
    &&& forall|a: T| #[trigger] a.neg_req()
}

/// Every operator of `T`, and its conversion from integers, is a function
/// of its operands.
pub open spec fn exact<T: Scalar>() -> bool {
    &&& T::obeys_add_spec()
    &&& T::obeys_sub_spec()
    &&& T::obeys_mul_spec()
    &&& T::obeys_div_spec()
    &&& T::obeys_neg_spec()
    &&& T::obeys_from_spec()
}

/// The comparisons of `T` are functions of their operands.
pub open spec fn ordered<T: Scalar>() -> bool {
    T::obeys_partial_cmp_spec()
}

/// The scalar that stands for the integer `n`.
pub open spec fn num<T: Scalar>(n: i16) -> T {
    T::from_spec(n)
}

/// Zero and one of `T` add and multiply among themselves as the numbers
/// zero and one do.
pub open spec fn units_behave<T: Scalar>() -> bool {
    let z = num::<T>(0);
    let o = num::<T>(1);
    &&& z.mul_spec(z) == z
    &&& z.mul_spec(o) == z
    &&& o.mul_spec(z) == z
    &&& o.mul_spec(o) == o
    &&& z.add_spec(z) == z
    &&& z.add_spec(o) == o
    &&& o.add_spec(z) == o
}

/// `x` held between `lo` and `hi`: `lo` where `x` is less than `lo`,
/// else `hi` where `x` is greater than `hi`, else `x` itself. A value that
/// compares with neither bound passes through.
pub open spec fn clamp_spec<T: Scalar>(x: T, lo: T, hi: T) -> T {
    if x.is_lt(&lo) {
        lo
    } else if x.is_gt(&hi) {
        hi
    } else {
        x
    }
}

/// Holds `x` between `lo` and `hi`.
pub fn clamp<T: Scalar>(x: T, lo: T, hi: T) -> (r: T)
    ensures
        ordered::<T>() ==> r == clamp_spec(x, lo, hi),
{
    if x < lo {
        lo
    } else if x > hi {
        hi
    } else {
        x
    }
}

/// A clamped value lies within the bounds, provided the bounds are in
/// order: neither bound is less than `lo`, and neither is greater than `hi`.
pub proof fn lemma_clamp_within<T: Scalar>(x: T, lo: T, hi: T)
    requires
        !lo.is_lt(&lo),
        !hi.is_lt(&lo),
        !lo.is_gt(&hi),
        !hi.is_gt(&hi),
    ensures
        !clamp_spec(x, lo, hi).is_lt(&lo),
        !clamp_spec(x, lo, hi).is_gt(&hi),
{
}

/// A value below the lower bound is clamped to exactly that bound, and one
/// above the upper bound (and not below the lower) to exactly the upper.
pub proof fn lemma_clamp_saturates<T: Scalar>(x: T, lo: T, hi: T)
    ensures
        x.is_lt(&lo) ==> clamp_spec(x, lo, hi) == lo,
        !x.is_lt(&lo) && x.is_gt(&hi) ==> clamp_spec(x, lo, hi) == hi,
        !x.is_lt(&lo) && !x.is_gt(&hi) ==> clamp_spec(x, lo, hi) == x,
{
}

} // verus!
