//! The laws of a commutative ring, for scalar types whose arithmetic keeps
//! them, and what follows from them.
//!
//! Nothing here is assumed of any scalar type. [`ring`] is a hypothesis: a
//! law that is proved from it holds of every scalar type of which the
//! hypothesis holds.

use crate::math::scalar::{num, Scalar};
use vstd::prelude::*;
use vstd::std_specs::ops::{AddSpec, DivSpec, MulSpec, NegSpec, SubSpec};

verus! {

/// The sums, products and negations of `T` keep the laws of a commutative
/// ring with the zero `num(0)` and the one `num(1)`.
#[verifier::opaque]
pub open spec fn ring<T: Scalar>() -> bool {
    &&& forall|a: T, b: T| #[trigger] a.add_spec(b) == b.add_spec(a)
    &&& forall|a: T, b: T, c: T| #[trigger] a.add_spec(b).add_spec(c) == a.add_spec(b.add_spec(c))
    &&& forall|a: T| #[trigger] a.add_spec(num::<T>(0)) == a
    &&& forall|a: T| #[trigger] a.add_spec(a.neg_spec()) == num::<T>(0)
    &&& forall|a: T, b: T| #[trigger] a.mul_spec(b) == b.mul_spec(a)
    &&& forall|a: T, b: T, c: T| #[trigger] a.mul_spec(b).mul_spec(c) == a.mul_spec(b.mul_spec(c))
    &&& forall|a: T| #[trigger] a.mul_spec(num::<T>(1)) == a
    &&& forall|a: T, b: T, c: T| #[trigger]
        a.mul_spec(b.add_spec(c)) == a.mul_spec(b).add_spec(a.mul_spec(c))
}

/// Sums may be turned round.
pub proof fn lemma_add_comm<T: Scalar>(a: T, b: T)
    requires
        ring::<T>(),
    ensures
        a.add_spec(b) == b.add_spec(a),
{
    reveal(ring);
}

/// Sums may be bracketed either way.
pub proof fn lemma_add_assoc<T: Scalar>(a: T, b: T, c: T)
    requires
        ring::<T>(),
    ensures
        a.add_spec(b).add_spec(c) == a.add_spec(b.add_spec(c)),
{
    reveal(ring);
}

/// Zero added on either side changes nothing.
pub proof fn lemma_add_zero<T: Scalar>(a: T)
    requires
        ring::<T>(),
    ensures
        a.add_spec(num::<T>(0)) == a,
        num::<T>(0).add_spec(a) == a,
{
    reveal(ring);
}

/// A scalar and its negation sum to zero.
pub proof fn lemma_add_neg<T: Scalar>(a: T)
    requires
        ring::<T>(),
    ensures
        a.add_spec(a.neg_spec()) == num::<T>(0),
        a.neg_spec().add_spec(a) == num::<T>(0),
{
    reveal(ring);
}

/// Products may be turned round.
pub proof fn lemma_mul_comm<T: Scalar>(a: T, b: T)
    requires
        ring::<T>(),
    ensures
        a.mul_spec(b) == b.mul_spec(a),
{
    reveal(ring);
}

/// Products may be bracketed either way.
pub proof fn lemma_mul_assoc<T: Scalar>(a: T, b: T, c: T)
    requires
        ring::<T>(),
    ensures
        a.mul_spec(b).mul_spec(c) == a.mul_spec(b.mul_spec(c)),
{
    reveal(ring);
}

/// One multiplied on either side changes nothing.
pub proof fn lemma_mul_one<T: Scalar>(a: T)
    requires
        ring::<T>(),
    ensures
        a.mul_spec(num::<T>(1)) == a,
        num::<T>(1).mul_spec(a) == a,
{
    reveal(ring);
}

/// A product with a sum is the sum of the products.
pub proof fn lemma_distributes<T: Scalar>(a: T, b: T, c: T)
    requires
        ring::<T>(),
    ensures
        a.mul_spec(b.add_spec(c)) == a.mul_spec(b).add_spec(a.mul_spec(c)),
{
    reveal(ring);
}

/// In `T` a difference is the sum with the negation.
#[verifier::opaque]
pub open spec fn difference<T: Scalar>() -> bool {
    forall|a: T, b: T| #[trigger] a.sub_spec(b) == a.add_spec(b.neg_spec())
}

/// Taking away what was added gives the first scalar back.
pub proof fn lemma_add_then_sub<T: Scalar>(a: T, b: T)
    requires
        ring::<T>(),
        difference::<T>(),
    ensures
        a.add_spec(b).sub_spec(b) == a,
{
    reveal(difference);
    lemma_add_assoc(a, b, b.neg_spec());
    lemma_add_neg(b);
    lemma_add_zero(a);
}

/// What sums with `x` to zero is the negation of `x`.
pub proof fn lemma_neg_unique<T: Scalar>(x: T, y: T)
    requires
        ring::<T>(),
        y.add_spec(x) == num::<T>(0),
    ensures
        y == x.neg_spec(),
{
    let z = num::<T>(0);
    let n = x.neg_spec();
    lemma_add_zero(y);
    lemma_add_neg(x);
    lemma_add_assoc(y, x, n);
    lemma_add_zero(n);
    assert(y == y.add_spec(x.add_spec(n)));
    assert(y.add_spec(x).add_spec(n) == z.add_spec(n));
}

/// A product with zero is zero.
pub proof fn lemma_mul_zero<T: Scalar>(a: T)
    requires
        ring::<T>(),
    ensures
        a.mul_spec(num::<T>(0)) == num::<T>(0),
        num::<T>(0).mul_spec(a) == num::<T>(0),
{
    let z = num::<T>(0);
    let x = a.mul_spec(z);
    lemma_add_zero(z);
    lemma_distributes(a, z, z);
    assert(x == x.add_spec(x));
    lemma_add_neg(x);
    lemma_add_assoc(x, x, x.neg_spec());
    lemma_add_zero(x);
    assert(x.add_spec(x).add_spec(x.neg_spec()) == x);
    lemma_mul_comm(a, z);
}

/// Negating twice gives the scalar back.
pub proof fn lemma_neg_neg<T: Scalar>(a: T)
    requires
        ring::<T>(),
    ensures
        a.neg_spec().neg_spec() == a,
{
    lemma_add_neg(a);
    lemma_neg_unique(a.neg_spec(), a);
}

/// A product with a negation is the negation of the product.
pub proof fn lemma_mul_neg<T: Scalar>(a: T, b: T)
    requires
        ring::<T>(),
    ensures
        a.mul_spec(b.neg_spec()) == a.mul_spec(b).neg_spec(),
        a.neg_spec().mul_spec(b) == a.mul_spec(b).neg_spec(),
{
    lemma_distributes(a, b.neg_spec(), b);
    lemma_add_neg(b);
    lemma_mul_zero(a);
    lemma_neg_unique(a.mul_spec(b), a.mul_spec(b.neg_spec()));
    lemma_mul_comm(a.neg_spec(), b);
    lemma_mul_comm(a, b);
    lemma_distributes(b, a.neg_spec(), a);
    lemma_add_neg(a);
    lemma_mul_zero(b);
    lemma_neg_unique(b.mul_spec(a), b.mul_spec(a.neg_spec()));
}

/// The product of two negations is the product of what they negate.
pub proof fn lemma_neg_mul_neg<T: Scalar>(a: T, b: T)
    requires
        ring::<T>(),
    ensures
        a.neg_spec().mul_spec(b.neg_spec()) == a.mul_spec(b),
{
    lemma_mul_neg(a.neg_spec(), b);
    lemma_mul_neg(a, b);
    lemma_neg_neg(a.mul_spec(b));
}

/// The square of a product is the product of the squares.
pub proof fn lemma_square_of_product<T: Scalar>(a: T, b: T)
    requires
        ring::<T>(),
    ensures
        a.mul_spec(b).mul_spec(a.mul_spec(b)) == a.mul_spec(a).mul_spec(b.mul_spec(b)),
{
    let ab = a.mul_spec(b);
    let bb = b.mul_spec(b);
    // (ab)(ab) = a(b(ab)) = a((ba)b) = a((ab)b) = a(a(bb)) = (aa)(bb)
    lemma_mul_assoc(a, b, ab);
    lemma_mul_assoc(b, a, b);
    lemma_mul_comm(a, b);
    lemma_mul_assoc(a, b, b);
    lemma_mul_assoc(a, a, bb);
    assert(b.mul_spec(ab) == a.mul_spec(bb));
}

/// The negation of zero is zero.
pub proof fn lemma_neg_zero<T: Scalar>()
    requires
        ring::<T>(),
    ensures
        num::<T>(0).neg_spec() == num::<T>(0),
{
    lemma_add_neg(num::<T>(0));
    lemma_add_zero(num::<T>(0).neg_spec());
}

/// The sum of two negations is the negation of the sum.
pub proof fn lemma_neg_add<T: Scalar>(a: T, b: T)
    requires
        ring::<T>(),
    ensures
        a.neg_spec().add_spec(b.neg_spec()) == a.add_spec(b).neg_spec(),
{
    let na = a.neg_spec();
    let nb = b.neg_spec();
    // (-a + -b) + (a + b) = -a + (-b + (a + b)) = -a + ((-b + b) + a) = -a + a = 0
    lemma_add_assoc(na, nb, a.add_spec(b));
    lemma_add_comm(a, b);
    lemma_add_assoc(nb, b, a);
    lemma_add_neg(b);
    lemma_add_zero(a);
    lemma_add_neg(a);
    assert(nb.add_spec(a.add_spec(b)) == a);
    lemma_neg_unique(a.add_spec(b), na.add_spec(nb));
}

/// In a product of two products the inner factors may change places.
pub proof fn lemma_mul_interchange<T: Scalar>(a: T, b: T, c: T, d: T)
    requires
        ring::<T>(),
    ensures
        a.mul_spec(b).mul_spec(c.mul_spec(d)) == a.mul_spec(c).mul_spec(b.mul_spec(d)),
{
    // (ab)(cd) = a(b(cd)) = a((bc)d) = a((cb)d) = a(c(bd)) = (ac)(bd)
    lemma_mul_assoc(a, b, c.mul_spec(d));
    lemma_mul_assoc(b, c, d);
    lemma_mul_comm(b, c);
    lemma_mul_assoc(c, b, d);
    lemma_mul_assoc(a, c, b.mul_spec(d));
}

/// Zero and one behave towards `x` as they should: zero swallows it in a
/// product and leaves it in a sum, and one leaves it in a product.
pub proof fn lemma_units<T: Scalar>(x: T)
    requires
        ring::<T>(),
    ensures
        num::<T>(0).mul_spec(x) == num::<T>(0),
        x.mul_spec(num::<T>(0)) == num::<T>(0),
        num::<T>(1).mul_spec(x) == x,
        x.mul_spec(num::<T>(1)) == x,
        num::<T>(0).add_spec(x) == x,
        x.add_spec(num::<T>(0)) == x,
{
    lemma_mul_zero(x);
    lemma_mul_one(x);
    lemma_add_zero(x);
}

/// `sc` could be the sine and cosine of one angle: their squares sum to
/// one.
pub open spec fn on_unit_circle<T: Scalar>(sc: (T, T)) -> bool {
    sc.0.mul_spec(sc.0).add_spec(sc.1.mul_spec(sc.1)) == num::<T>(1)
}

/// The four sums by which a plane rotation undoes the rotation by the
/// opposite angle. `s` and `c` are the sine and cosine of the angle; the
/// opposite angle has the sine negated and the same cosine.
pub proof fn lemma_rotation_block<T: Scalar>(s: T, c: T)
    requires
        ring::<T>(),
        on_unit_circle((s, c)),
    ensures
        c.mul_spec(c).add_spec(s.neg_spec().mul_spec(s.neg_spec())) == num::<T>(1),
        s.mul_spec(s.neg_spec().neg_spec()).add_spec(c.mul_spec(c)) == num::<T>(1),
        c.mul_spec(s.neg_spec().neg_spec()).add_spec(s.neg_spec().mul_spec(c)) == num::<T>(0),
        s.mul_spec(c).add_spec(c.mul_spec(s.neg_spec())) == num::<T>(0),
{
    lemma_neg_mul_neg(s, s);
    lemma_neg_neg(s);
    lemma_add_comm(s.mul_spec(s), c.mul_spec(c));
    lemma_mul_neg(s, c);
    lemma_mul_neg(c, s);
    lemma_mul_comm(s, c);
    lemma_add_neg(s.mul_spec(c));
}

/// A sum multiplied from the right is the sum of the products.
pub proof fn lemma_distributes_right<T: Scalar>(a: T, b: T, c: T)
    requires
        ring::<T>(),
    ensures
        a.add_spec(b).mul_spec(c) == a.mul_spec(c).add_spec(b.mul_spec(c)),
{
    lemma_mul_comm(a.add_spec(b), c);
    lemma_distributes(c, a, b);
    lemma_mul_comm(c, a);
    lemma_mul_comm(c, b);
}

/// The scalars of `T` form a ring in which division by anything but zero
/// undoes multiplication, and multiplication undoes division.
#[verifier::opaque]
pub open spec fn field<T: Scalar>() -> bool {
    &&& ring::<T>()
    &&& forall|a: T, b: T|
        b != num::<T>(0) ==> #[trigger] a.div_spec(b).mul_spec(b) == a
    &&& forall|a: T, b: T|
        b != num::<T>(0) ==> #[trigger] a.mul_spec(b).div_spec(b) == a
}

/// A field is a ring.
pub proof fn lemma_field_is_ring<T: Scalar>()
    requires
        field::<T>(),
    ensures
        ring::<T>(),
{
    reveal(field);
}

/// Multiplying a quotient by its divisor gives the dividend back.
pub proof fn lemma_div_mul<T: Scalar>(a: T, b: T)
    requires
        field::<T>(),
        b != num::<T>(0),
    ensures
        a.div_spec(b).mul_spec(b) == a,
{
    reveal(field);
}

/// Dividing a product by its second factor gives the first back.
pub proof fn lemma_mul_div<T: Scalar>(a: T, b: T)
    requires
        field::<T>(),
        b != num::<T>(0),
    ensures
        a.mul_spec(b).div_spec(b) == a,
{
    reveal(field);
}

/// Two scalars with the same product by something other than zero are
/// the same.
pub proof fn lemma_cancel<T: Scalar>(x: T, y: T, d: T)
    requires
        field::<T>(),
        d != num::<T>(0),
        x.mul_spec(d) == y.mul_spec(d),
    ensures
        x == y,
{
    lemma_mul_div(x, d);
    lemma_mul_div(y, d);
}

/// The square of a quotient, times the square of the divisor, is the
/// square of the dividend.
pub proof fn lemma_square_of_quotient<T: Scalar>(a: T, b: T)
    requires
        field::<T>(),
        b != num::<T>(0),
    ensures
        a.div_spec(b).mul_spec(a.div_spec(b)).mul_spec(b.mul_spec(b)) == a.mul_spec(a),
{
    lemma_field_is_ring::<T>();
    lemma_square_of_product(a.div_spec(b), b);
    lemma_div_mul(a, b);
}

} // verus!
