//! The numeric primitives the pallets rely on, taken from the `num` crate.

use vstd::prelude::*;

verus! {

/// `num::zero` at `u128`: the additive identity, which is `0`.
#[verifier::external_body]
pub(crate) fn zero_balance() -> (r: u128)
    ensures
        r == 0,
{
    num::zero()
}

/// `num::zero` at `u32`: the additive identity, which is `0`.
#[verifier::external_body]
pub(crate) fn zero_count() -> (r: u32)
    ensures
        r == 0,
{
    num::zero()
}

/// `num::one` at `u32`: the multiplicative identity, which is `1`.
#[verifier::external_body]
pub(crate) fn one_count() -> (r: u32)
    ensures
        r == 1,
{
    num::one()
}

/// `num::CheckedAdd::checked_add` at `u128`: the sum, or `None` where the sum
/// does not fit in a `u128`.
#[verifier::external_body]
pub(crate) fn checked_add_balance(a: u128, b: u128) -> (r: Option<u128>)
    ensures
        r == (if a + b <= u128::MAX {
            Some((a + b) as u128)
        } else {
            None
        }),
{
    num::CheckedAdd::checked_add(&a, &b)
}

/// `num::CheckedSub::checked_sub` at `u128`: the difference, or `None` where
/// the subtrahend exceeds the minuend.
#[verifier::external_body]
pub(crate) fn checked_sub_balance(a: u128, b: u128) -> (r: Option<u128>)
    ensures
        r == (if b <= a {
            Some((a - b) as u128)
        } else {
            None
        }),
{
    num::CheckedSub::checked_sub(&a, &b)
}

} // verus!
