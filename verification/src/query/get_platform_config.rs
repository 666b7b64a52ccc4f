use vstd::prelude::*;
use crate::error::{ContractError, RecordKind};
use crate::msg::PlatformConfigResponse;
use crate::state::{ConfigView, Store, StoreView};

verus! {

/// The three roles as stored.
pub open spec fn spec_get_platform_config(store: StoreView) -> Result<ConfigView, ContractError> {
    match store.config {
        Some(config) => Ok(config),
        None => Err(ContractError::NotFound { kind: RecordKind::Config }),
    }
}

/// The platform wallet, the oracle authority and the authority.
pub fn get_platform_config(store: &Store) -> (result: Result<PlatformConfigResponse, ContractError>)
    ensures
        match result {
            Ok(response) => spec_get_platform_config(store@) == Ok::<ConfigView, ContractError>(response@),
            Err(e) => spec_get_platform_config(store@) == Err::<ConfigView, ContractError>(e),
        },
{
    match &store.config {
        Some(config) => Ok(
            PlatformConfigResponse {
                platform_wallet: config.platform_wallet.clone(),
                oracle_authority: config.oracle_authority.clone(),
                authority: config.authority.clone(),
            },
        ),
        None => Err(ContractError::NotFound { kind: RecordKind::Config }),
    }
}

} // verus!
