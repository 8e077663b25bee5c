//! The prime-order group the scheme is built on.
//!
//! The arithmetic itself is done by `curve25519_dalek`.  This module gives it
//! a mathematical reading: the Ristretto group is cyclic of prime order
//! `group_order()`, so every element is a multiple of the basepoint, and the
//! multiplier (taken modulo the order) identifies the element.  Contracts in
//! this crate speak of elements through that multiplier, their *index*.

use clear_on_drop::clear::Clear;
use curve25519_dalek::constants::RISTRETTO_BASEPOINT_TABLE;
use curve25519_dalek::ristretto::RistrettoBasepointTable;
use curve25519_dalek::ristretto::RistrettoPoint;
use curve25519_dalek::scalar::Scalar;
use rand_core::CryptoRng;
use rand_core::RngCore;
use vstd::arithmetic::power2::pow2;
use vstd::prelude::*;

verus! {

/// `curve25519_dalek::scalar::Scalar`, carried through as an opaque value.
#[verifier::external_type_specification]
#[verifier::external_body]
pub struct ExScalar(Scalar);

/// `curve25519_dalek::ristretto::RistrettoPoint`, carried through as an
/// opaque value.
#[verifier::external_type_specification]
#[verifier::external_body]
pub struct ExRistrettoPoint(RistrettoPoint);

/// `curve25519_dalek::ristretto::RistrettoBasepointTable`, carried through as
/// an opaque value.
#[verifier::external_type_specification]
#[verifier::external_body]
pub struct ExRistrettoBasepointTable(RistrettoBasepointTable);

/// The order of the Ristretto group: 2^252 + 27742317777372353535851937790883648493.
pub open spec fn group_order() -> nat {
    pow2(252) + 27742317777372353535851937790883648493
}

/// The integer that a scalar stands for: the little-endian reading of the 32
/// bytes it holds.
pub uninterp spec fn scalar_value(s: Scalar) -> nat;

/// The index of a group element: the `k` below `group_order()` for which the
/// element is `k` times the Ristretto basepoint.
pub uninterp spec fn point_index(p: RistrettoPoint) -> nat;

/// The index of the group element whose multiples a table holds.
pub uninterp spec fn table_index(t: RistrettoBasepointTable) -> nat;

/// Index of the sum of two elements.
pub open spec fn index_add(a: nat, b: nat) -> nat {
    (a + b) % group_order()
}

/// Index of the difference of two elements.
pub open spec fn index_sub(a: nat, b: nat) -> nat {
    ((a as int - b as int) % (group_order() as int)) as nat
}

/// Index of `k` times the element of index `a`.
pub open spec fn index_mul(k: nat, a: nat) -> nat {
    (k * a) % group_order()
}

/// `curve25519_dalek::constants::RISTRETTO_BASEPOINT_TABLE`: the table of
/// multiples of the Ristretto basepoint, which is once itself.
#[verifier::external_body]
pub(crate) fn basepoint_table() -> (r: &'static RistrettoBasepointTable)
    ensures
        table_index(*r) == 1,
{
    RISTRETTO_BASEPOINT_TABLE
}

/// `&RistrettoBasepointTable * &Scalar`: fixed-base scalar multiplication.
/// The result is the scalar's value times the element the table was built
/// for.
#[verifier::external_body]
pub(crate) fn table_mul(table: &RistrettoBasepointTable, scalar: &Scalar) -> (r: RistrettoPoint)
    ensures
        point_index(r) == index_mul(scalar_value(*scalar), table_index(*table)),
{
    table * scalar
}

/// `&RistrettoPoint * &Scalar`: variable-base scalar multiplication.  The
/// result is the scalar's value times the given element.
#[verifier::external_body]
pub(crate) fn point_mul(point: &RistrettoPoint, scalar: &Scalar) -> (r: RistrettoPoint)
    ensures
        point_index(r) == index_mul(scalar_value(*scalar), point_index(*point)),
{
    point * scalar
}

/// `&RistrettoPoint + &RistrettoPoint`: the group sum.
#[verifier::external_body]
pub(crate) fn point_add(a: &RistrettoPoint, b: &RistrettoPoint) -> (r: RistrettoPoint)
    ensures
        point_index(r) == index_add(point_index(*a), point_index(*b)),
{
    a + b
}

/// `&RistrettoPoint - &RistrettoPoint`: the group difference.
#[verifier::external_body]
pub(crate) fn point_sub(a: &RistrettoPoint, b: &RistrettoPoint) -> (r: RistrettoPoint)
    ensures
        point_index(r) == index_sub(point_index(*a), point_index(*b)),
{
    a - b
}

/// `Scalar::random`: a scalar drawn from the given generator.  It reduces
/// the 64 bytes it draws modulo the group order, so whatever is drawn stands
/// for an integer below the order; nothing else is claimed of it.
#[verifier::external_body]
pub(crate) fn random_scalar<C>(csprng: &mut C) -> (r: Scalar) where C: CryptoRng + RngCore
    ensures
        scalar_value(r) < group_order(),
{
    Scalar::random(csprng)
}

/// `Clone::clone` of a scalar, which is `Copy`: the same scalar again.
pub assume_specification[ <Scalar as Clone>::clone ](s: &Scalar) -> (r: Scalar)
    ensures
        r == *s,
;

/// `Scalar::default`: the zero scalar.
#[verifier::external_body]
pub(crate) fn zero_scalar() -> (r: Scalar)
    ensures
        scalar_value(r) == 0,
{
    Scalar::default()
}

/// `clear_on_drop::clear::Clear::clear` on a scalar: the bytes are
/// overwritten with zeros and the scalar is left as `Scalar::default()`, the
/// zero scalar.
#[verifier::external_body]
pub(crate) fn clear_scalar(scalar: &mut Scalar)
    ensures
        scalar_value(*final(scalar)) == 0,
    opens_invariants none
    no_unwind
{
    scalar.clear();
}

} // verus!
