use vstd::prelude::*;
use crate::denom::{is_factory_denom, spec_is_factory_denom};
use crate::error::{ContractError, RecordKind};
use crate::msg::TokenMetadataResponse;
use crate::state::{Store, StoreView, TokenMetadataView};

verus! {

/// What is registered under `mint`.
pub open spec fn spec_get_token_metadata(store: StoreView, mint: Seq<char>) -> Result<
    TokenMetadataView,
    ContractError,
> {
    if !spec_is_factory_denom(mint) {
        Err(ContractError::InvalidDenom {})
    } else if !store.token_metadata.contains_key(mint) {
        Err(ContractError::NotFound { kind: RecordKind::TokenMetadata })
    } else {
        Ok(store.token_metadata[mint])
    }
}

/// Name, content address, number and identifier of a registered asset.
pub fn get_token_metadata(store: &Store, mint: String) -> (result: Result<TokenMetadataResponse, ContractError>)
    ensures
        match result {
            Ok(response) => spec_get_token_metadata(store@, mint@) == Ok::<TokenMetadataView, ContractError>(
                response@,
            ),
            Err(e) => spec_get_token_metadata(store@, mint@) == Err::<TokenMetadataView, ContractError>(e),
        },
{
    if !is_factory_denom(mint.as_str()) {
        return Err(ContractError::InvalidDenom {});
    }
    match store.token_metadata.get(&mint) {
        Some(metadata) => Ok(
            TokenMetadataResponse {
                name: metadata.name.clone(),
                music_uri: metadata.music_uri.clone(),
                id: metadata.id,
                mint: metadata.mint.clone(),
            },
        ),
        None => Err(ContractError::NotFound { kind: RecordKind::TokenMetadata }),
    }
}

} // verus!
