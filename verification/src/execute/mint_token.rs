use vstd::prelude::*;
use crate::auth::authorize;
use crate::denom::{is_factory_denom, spec_is_factory_denom};
use crate::error::{ContractError, RecordKind};
use crate::msg::{MintOrder, MintOrderView};
use crate::state::{Store, StoreView};

verus! {

/// The order to mint `amount` of `mint` to `recipient` on behalf of `sender`,
/// or why it is refused.
pub open spec fn spec_mint_token(
    store: StoreView,
    sender: Seq<char>,
    mint: Seq<char>,
    recipient: Seq<char>,
    amount: u128,
) -> Result<MintOrderView, ContractError> {
    if amount == 0 {
        Err(ContractError::InvalidAmount {})
    } else if !spec_is_factory_denom(mint) {
        Err(ContractError::InvalidDenom {})
    } else if !store.token_metadata.contains_key(mint) {
        Err(ContractError::NotFound { kind: RecordKind::TokenMetadata })
    } else if !store.token_vaults.contains_key(mint) {
        Err(ContractError::NotFound { kind: RecordKind::TokenVault })
    } else if store.config is None {
        Err(ContractError::NotFound { kind: RecordKind::Config })
    } else if sender != store.config->0.authority {
        Err(ContractError::Unauthorized {})
    } else {
        Ok(MintOrderView { denom: mint, amount, recipient })
    }
}

/// Orders `amount` units of `mint` to be issued to `recipient`. Only the
/// platform authority may order, and only for an asset that is registered and
/// has a vault. The state is read, never changed; the order is carried out
/// elsewhere.
pub fn mint_token(store: &Store, sender: &String, mint: String, recipient: String, amount: u128) -> (result: Result<
    MintOrder,
    ContractError,
>)
    ensures
        match result {
            Ok(order) => spec_mint_token(store@, sender@, mint@, recipient@, amount) == Ok::<
                MintOrderView,
                ContractError,
            >(order@),
            Err(e) => spec_mint_token(store@, sender@, mint@, recipient@, amount) == Err::<
                MintOrderView,
                ContractError,
            >(e),
        },
{
    if amount == 0 {
        return Err(ContractError::InvalidAmount {});
    }
    if !is_factory_denom(mint.as_str()) {
        return Err(ContractError::InvalidDenom {});
    }
    if !store.token_metadata.has(&mint) {
        return Err(ContractError::NotFound { kind: RecordKind::TokenMetadata });
    }
    if !store.token_vaults.has(&mint) {
        return Err(ContractError::NotFound { kind: RecordKind::TokenVault });
    }
    let config = match &store.config {
        Some(config) => config,
        None => { return Err(ContractError::NotFound { kind: RecordKind::Config }); },
    };
    authorize(sender, &config.authority)?;
    Ok(MintOrder { denom: mint, amount, recipient })
}

} // verus!
