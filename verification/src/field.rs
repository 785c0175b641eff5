//! Scalar-field arithmetic.
//!
//! The scalar type `S` is any implementation of [`ff::Field`].  Its elements are
//! opaque here: contracts speak of them through `sum`, `difference` and
//! `product`, which stand for the field's own operations, and through the two
//! identities and the inverses that these operations determine.
use vstd::prelude::*;
use vstd::std_specs::ops::AddSpec;
use vstd::std_specs::ops::SubSpec;
use vstd::std_specs::ops::MulSpec;
use ff::Field;

verus! {

/// The sum of two field elements.
pub open spec fn sum<S: Field>(a: S, b: S) -> S {
    a.add_spec(b)
}

/// The difference of two field elements.
pub open spec fn difference<S: Field>(a: S, b: S) -> S {
    a.sub_spec(b)
}

/// The product of two field elements.
pub open spec fn product<S: Field>(a: S, b: S) -> S {
    a.mul_spec(b)
}

/// `z` is an additive identity: adding it on either side changes nothing.
pub open spec fn is_zero<S: Field>(z: S) -> bool {
    forall|a: S|
        #![trigger sum(a, z)]
        #![trigger sum(z, a)]
        sum(a, z) == a && sum(z, a) == a
}

/// `o` is a multiplicative identity: multiplying by it on either side changes nothing.
pub open spec fn is_one<S: Field>(o: S) -> bool {
    forall|a: S|
        #![trigger product(a, o)]
        #![trigger product(o, a)]
        product(a, o) == a && product(o, a) == a
}

/// The additive identity of `S`.
pub open spec fn zero<S: Field>() -> S {
    choose|z: S| is_zero(z)
}

/// The multiplicative identity of `S`.
pub open spec fn one<S: Field>() -> S {
    choose|o: S| is_one(o)
}

/// `i` is a multiplicative inverse of `a`.
pub open spec fn is_inverse<S: Field>(a: S, i: S) -> bool {
    is_one(product(a, i))
}

/// The multiplicative inverse of `a`; meaningful where `a` is not zero.
pub open spec fn inverse<S: Field>(a: S) -> S {
    choose|i: S| is_inverse(a, i)
}

/// `base` multiplied `exponent` times onto the multiplicative identity.
pub open spec fn power<S: Field>(base: S, exponent: nat) -> S
    decreases exponent,
{
    if exponent == 0 {
        one::<S>()
    } else {
        product(power(base, (exponent - 1) as nat), base)
    }
}

/// An additive identity is the additive identity: there is only one.
pub proof fn lemma_zero_is_unique<S: Field>(z: S)
    requires
        is_zero(z),
    ensures
        z == zero::<S>(),
{
    let c = zero::<S>();
    assert(is_zero(c));
    assert(sum(z, c) == z);
    assert(sum(z, c) == c);
}

/// A multiplicative identity is the multiplicative identity: there is only one.
pub proof fn lemma_one_is_unique<S: Field>(o: S)
    requires
        is_one(o),
    ensures
        o == one::<S>(),
{
    let c = one::<S>();
    assert(is_one(c));
    assert(product(o, c) == o);
    assert(product(o, c) == c);
}

/// Calls `ff::Field::zero`, which returns the additive identity of the field:
/// the contract claims that adding the result to any element, on either side,
/// gives that element back.
#[verifier::external_body]
pub(crate) fn field_zero<S: Field>() -> (r: S)
    ensures
        is_zero(r),
{
    S::zero()
}

/// Calls `ff::Field::one`, which returns the multiplicative identity of the
/// field: the contract claims that multiplying any element by the result, on
/// either side, gives that element back.
#[verifier::external_body]
pub(crate) fn field_one<S: Field>() -> (r: S)
    ensures
        is_one(r),
{
    S::one()
}

/// Calls the addition that `ff::Field` demands of its implementors
/// (`Add<Output = Self>`).  The contract claims only that the sum is a
/// function of the two operands, the one that contracts write `sum(a, b)`.
#[verifier::external_body]
pub(crate) fn field_add<S: Field>(a: S, b: S) -> (r: S)
    ensures
        r == sum(a, b),
{
    a + b
}

/// Calls the subtraction that `ff::Field` demands of its implementors
/// (`Sub<Output = Self>`).  The contract claims that the difference is a
/// function of the two operands, the one that contracts write
/// `difference(a, b)`, and that, as in every field, an element minus itself is
/// an additive identity.
#[verifier::external_body]
pub(crate) fn field_sub<S: Field>(a: S, b: S) -> (r: S)
    ensures
        r == difference(a, b),
        a == b ==> is_zero(r),
{
    a - b
}

/// Calls the multiplication that `ff::Field` demands of its implementors
/// (`Mul<Output = Self>`).  The contract claims only that the product is a
/// function of the two operands, the one that contracts write `product(a, b)`.
#[verifier::external_body]
pub(crate) fn field_mul<S: Field>(a: S, b: S) -> (r: S)
    ensures
        r == product(a, b),
{
    a * b
}

/// Calls `ff::Field::invert`, which computes the multiplicative inverse of an
/// element and fails if the element is zero, and turns the `CtOption` that it
/// returns into an `Option`.  The contract claims that the call fails exactly
/// on an additive identity, and that otherwise the product of the element and
/// the result is a multiplicative identity; a field has one such result for
/// each element, which is the one that `inverse` names.
#[verifier::external_body]
pub(crate) fn field_invert<S: Field>(a: S) -> (r: Option<S>)
    ensures
        r is None <==> is_zero(a),
        r matches Some(i) ==> is_inverse(a, i) && i == inverse(a),
{
    a.invert().into()
}

} // verus!
