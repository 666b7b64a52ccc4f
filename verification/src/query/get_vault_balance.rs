use vstd::prelude::*;
use crate::denom::{is_factory_denom, spec_is_factory_denom};
use crate::error::{ContractError, RecordKind};
use crate::msg::VaultBalanceResponse;
use crate::state::{Store, StoreView};

verus! {

/// What the vault of `mint` has collected.
pub open spec fn spec_get_vault_balance(store: StoreView, mint: Seq<char>) -> Result<
    VaultBalanceResponse,
    ContractError,
> {
    if !spec_is_factory_denom(mint) {
        Err(ContractError::InvalidDenom {})
    } else if !store.token_vaults.contains_key(mint) {
        Err(ContractError::NotFound { kind: RecordKind::TokenVault })
    } else {
        Ok(VaultBalanceResponse { balance: store.token_vaults[mint].total_collected })
    }
}

/// The total an asset's vault has collected.
pub fn get_vault_balance(store: &Store, mint: String) -> (result: Result<VaultBalanceResponse, ContractError>)
    ensures
        result == spec_get_vault_balance(store@, mint@),
{
    if !is_factory_denom(mint.as_str()) {
        return Err(ContractError::InvalidDenom {});
    }
    match store.token_vaults.get(&mint) {
        Some(vault) => Ok(VaultBalanceResponse { balance: vault.total_collected }),
        None => Err(ContractError::NotFound { kind: RecordKind::TokenVault }),
    }
}

} // verus!
