use vstd::prelude::*;
use crate::denom::{is_factory_denom, spec_is_factory_denom};
use crate::error::{ContractError, RecordKind};
use crate::msg::TokenPriceResponse;
use crate::state::{Store, StoreView};
use crate::utils::{calculate_price, spec_price};

verus! {

/// The unit price of `mint` on the curve.
pub open spec fn spec_get_token_price(store: StoreView, mint: Seq<char>) -> Result<
    TokenPriceResponse,
    ContractError,
> {
    if !spec_is_factory_denom(mint) {
        Err(ContractError::InvalidDenom {})
    } else if !store.viewership_oracles.contains_key(mint) {
        Err(ContractError::NotFound { kind: RecordKind::ViewershipOracle })
    } else if spec_price(store.viewership_oracles[mint]) > u128::MAX {
        Err(ContractError::SupplyOverflow {})
    } else {
        Ok(TokenPriceResponse { price: spec_price(store.viewership_oracles[mint]) as u128 })
    }
}

/// The current unit price of an asset.
pub fn get_token_price(store: &Store, mint: String) -> (result: Result<TokenPriceResponse, ContractError>)
    ensures
        result == spec_get_token_price(store@, mint@),
{
    if !is_factory_denom(mint.as_str()) {
        return Err(ContractError::InvalidDenom {});
    }
    let oracle = match store.viewership_oracles.get(&mint) {
        Some(oracle) => oracle,
        None => { return Err(ContractError::NotFound { kind: RecordKind::ViewershipOracle }); },
    };
    let price = calculate_price(oracle, 0)?;
    Ok(TokenPriceResponse { price })
}

} // verus!
