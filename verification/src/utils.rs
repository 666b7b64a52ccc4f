//! The bonding-curve price and the split of a purchase's cost.

use vstd::prelude::*;
use crate::amount::{checked_add, checked_mul, multiply_ratio};
use crate::error::ContractError;
use crate::msg::Coin;
use crate::state::{ViewershipOracle, ViewershipOracleView};

verus! {

/// The number of smallest payment units in one whole unit.
pub const BASE_UNIT: u64 = 1_000_000_000;

/// The platform keeps `FEE_NUMERATOR / FEE_DENOMINATOR` of every purchase.
pub const FEE_NUMERATOR: u128 = 25;

pub const FEE_DENOMINATOR: u128 = 1000;

/// The unit price on the curve: `k * BASE_UNIT + view_count * m`.
pub open spec fn curve_price(k: u64, m: u64, view_count: u64) -> int {
    k * BASE_UNIT + view_count * m
}

/// The unit price an oracle stands for.
pub open spec fn spec_price(oracle: ViewershipOracleView) -> int {
    curve_price(oracle.price_params.k, oracle.price_params.m, oracle.view_count)
}

/// The platform's share of a cost, rounded down.
pub open spec fn platform_fee_of(total_cost: int) -> int {
    total_cost * FEE_NUMERATOR / (FEE_DENOMINATOR as int)
}

/// What is left of a cost for the vault.
pub open spec fn vault_amount_of(total_cost: int) -> int {
    total_cost - platform_fee_of(total_cost)
}

/// The amounts of one purchase.
#[derive(Clone, Copy, Debug, PartialEq, Eq, Structural)]
pub struct PurchaseQuote {
    pub unit_price: u128,
    pub total_cost: u128,
    pub platform_fee: u128,
    pub vault_amount: u128,
}

/// The quote for `amount_tokens` units at the oracle's price, where price and
/// cost both fit in 128 bits.
pub open spec fn spec_quote(oracle: ViewershipOracleView, amount_tokens: u128) -> Option<PurchaseQuote> {
    let price = spec_price(oracle);
    let total = price * amount_tokens;
    if price <= u128::MAX && total <= u128::MAX {
        Some(
            PurchaseQuote {
                unit_price: price as u128,
                total_cost: total as u128,
                platform_fee: platform_fee_of(total) as u128,
                vault_amount: vault_amount_of(total) as u128,
            },
        )
    } else {
        None
    }
}

/// The price never falls when the view count grows.
pub proof fn lemma_price_monotonic(k: u64, m: u64, fewer: u64, more: u64)
    requires
        fewer <= more,
    ensures
        curve_price(k, m, fewer) <= curve_price(k, m, more),
{
    assert(fewer * m <= more * m) by (nonlinear_arith)
        requires
            fewer <= more,
            m >= 0,
    ;
}

/// Fee and vault amount add up to the cost, and neither is negative.
pub proof fn lemma_split_conserves(total_cost: int)
    requires
        total_cost >= 0,
    ensures
        platform_fee_of(total_cost) + vault_amount_of(total_cost) == total_cost,
        0 <= platform_fee_of(total_cost) <= total_cost,
        0 <= vault_amount_of(total_cost) <= total_cost,
{
}

/// The unit price of an asset. The supply is accepted and ignored: the curve
/// depends on viewership alone.
pub fn calculate_price(oracle: &ViewershipOracle, _supply: u128) -> (result: Result<u128, ContractError>)
    ensures
        match result {
            Ok(price) => price == spec_price(oracle@),
            Err(e) => e == (ContractError::SupplyOverflow {}) && spec_price(oracle@) > u128::MAX,
        },
{
    let k = oracle.price_params.k;
    let m = oracle.price_params.m;
    let views = oracle.view_count;
    assert(0 <= k * BASE_UNIT <= u128::MAX && 0 <= views * m <= u128::MAX) by (nonlinear_arith)
        requires
            k <= u64::MAX,
            m <= u64::MAX,
            views <= u64::MAX,
            BASE_UNIT == 1_000_000_000,
    ;
    let base_price = match checked_mul(k as u128, BASE_UNIT as u128) {
        Some(v) => v,
        None => { return Err(ContractError::SupplyOverflow {}); },
    };
    let view_factor = match checked_mul(views as u128, m as u128) {
        Some(v) => v,
        None => { return Err(ContractError::SupplyOverflow {}); },
    };
    match checked_add(base_price, view_factor) {
        Some(price) => Ok(price),
        None => Err(ContractError::SupplyOverflow {}),
    }
}

/// Price, cost and split for buying `amount_tokens` units.
pub fn quote_purchase(oracle: &ViewershipOracle, amount_tokens: u128) -> (result: Result<PurchaseQuote, ContractError>)
    ensures
        match result {
            Ok(quote) => spec_quote(oracle@, amount_tokens) == Some(quote),
            Err(e) => e == (ContractError::SupplyOverflow {}) && spec_quote(oracle@, amount_tokens) is None,
        },
{
    let unit_price = calculate_price(oracle, 0)?;
    let total_cost = match checked_mul(unit_price, amount_tokens) {
        Some(v) => v,
        None => { return Err(ContractError::SupplyOverflow {}); },
    };
    proof {
        lemma_split_conserves(total_cost as int);
    }
    let platform_fee = multiply_ratio(total_cost, FEE_NUMERATOR, FEE_DENOMINATOR);
    let vault_amount = total_cost - platform_fee;
    Ok(PurchaseQuote { unit_price, total_cost, platform_fee, vault_amount })
}

/// The denomination purchases are paid in.
pub const PAYMENT_DENOM: &'static str = "inj";

/// What a coin adds to the payment: its amount where it is of the payment
/// denomination, nothing otherwise.
pub open spec fn payment_part(coin: Coin) -> int {
    if coin.denom@ == PAYMENT_DENOM@ {
        coin.amount as int
    } else {
        0
    }
}

/// The payment attached to a command: the sum of its coins of the payment
/// denomination.
pub open spec fn spec_payment(funds: Seq<Coin>) -> int
    decreases funds.len(),
{
    if funds.len() == 0 {
        0
    } else {
        spec_payment(funds.drop_last()) + payment_part(funds.last())
    }
}

/// The payment never is negative.
pub proof fn lemma_payment_nonnegative(funds: Seq<Coin>)
    ensures
        spec_payment(funds) >= 0,
    decreases funds.len(),
{
    if funds.len() > 0 {
        lemma_payment_nonnegative(funds.drop_last());
    }
}

/// A sum held in 128 bits: sums beyond that are held as the largest value.
pub open spec fn capped(sum: int) -> int {
    if sum <= u128::MAX {
        sum
    } else {
        u128::MAX as int
    }
}

/// The payment attached to a command, capped at the largest 128-bit value.
pub fn get_inj_amount(funds: &Vec<Coin>) -> (amount: u128)
    ensures
        amount == capped(spec_payment(funds@)),
{
    let denom = PAYMENT_DENOM.to_owned();
    let mut amount: u128 = 0;
    let mut i: usize = 0;
    while i < funds.len()
        invariant
            i <= funds.len(),
            denom@ == PAYMENT_DENOM@,
            amount == capped(spec_payment(funds@.take(i as int))),
        decreases funds.len() - i,
    {
        proof {
            assert(funds@.take(i + 1).drop_last() == funds@.take(i as int));
            lemma_payment_nonnegative(funds@.take(i as int));
        }
        if funds[i].denom == denom {
            amount = match checked_add(amount, funds[i].amount) {
                Some(sum) => sum,
                None => u128::MAX,
            };
        }
        i += 1;
    }
    assert(funds@.take(funds@.len() as int) == funds@);
    amount
}

} // verus!
