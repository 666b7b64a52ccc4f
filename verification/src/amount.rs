//! Arithmetic on 128-bit token amounts, carried out by `cosmwasm_std::Uint128`.

use vstd::prelude::*;

verus! {

/// `a + b`, or `None` when the sum does not fit in 128 bits.
///
/// Trusted: calls `cosmwasm_std::Uint128::checked_add`, which forwards to
/// `u128::checked_add` and reports an overflow as an error.
#[verifier::external_body]
pub(crate) fn checked_add(a: u128, b: u128) -> (sum: Option<u128>)
    ensures
        sum == (if a + b <= u128::MAX { Some((a + b) as u128) } else { None }),
{
    match cosmwasm_std::Uint128::new(a).checked_add(cosmwasm_std::Uint128::new(b)) {
        Ok(v) => Some(v.u128()),
        Err(_) => None,
    }
}

/// `a * b`, or `None` when the product does not fit in 128 bits.
///
/// Trusted: calls `cosmwasm_std::Uint128::checked_mul`, which forwards to
/// `u128::checked_mul` and reports an overflow as an error.
#[verifier::external_body]
pub(crate) fn checked_mul(a: u128, b: u128) -> (product: Option<u128>)
    ensures
        product == (if a * b <= u128::MAX { Some((a * b) as u128) } else { None }),
{
    match cosmwasm_std::Uint128::new(a).checked_mul(cosmwasm_std::Uint128::new(b)) {
        Ok(v) => Some(v.u128()),
        Err(_) => None,
    }
}

/// `amount * numerator / denominator`, rounded down.
///
/// Trusted: calls `cosmwasm_std::Uint128::multiply_ratio`, which multiplies in
/// 256 bits, divides, and panics on a zero denominator or when the quotient
/// does not fit in 128 bits; both are excluded here.
#[verifier::external_body]
pub(crate) fn multiply_ratio(amount: u128, numerator: u128, denominator: u128) -> (share: u128)
    requires
        denominator != 0,
        amount * numerator / (denominator as int) <= u128::MAX,
    ensures
        share == amount * numerator / (denominator as int),
{
    cosmwasm_std::Uint128::new(amount).multiply_ratio(numerator, denominator).u128()
}

} // verus!
