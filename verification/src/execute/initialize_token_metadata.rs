use vstd::prelude::*;
use vstd::string::StrSliceExecFns;
use crate::denom::{is_factory_denom, spec_is_factory_denom};
use crate::error::ContractError;
use crate::execute::left_by;
use crate::state::{Store, StoreView, TokenMetadata, TokenMetadataView};

verus! {

/// The most characters a name may have.
pub const MAX_NAME_LEN: usize = 32;

/// The most characters a content address may have.
pub const MAX_URI_LEN: usize = 44;

/// The state after a registration of `mint`, or why it is refused. Only the
/// form of the three texts decides whether it is refused. An identifier is
/// registered once: where a record is stored under it, that record stays.
pub open spec fn spec_initialize_token_metadata(
    store: StoreView,
    id: u64,
    name: Seq<char>,
    music_uri: Seq<char>,
    mint: Seq<char>,
) -> Result<StoreView, ContractError> {
    if name.len() > MAX_NAME_LEN {
        Err(ContractError::NameTooLong {})
    } else if music_uri.len() > MAX_URI_LEN {
        Err(ContractError::UriTooLong {})
    } else if !spec_is_factory_denom(mint) {
        Err(ContractError::InvalidDenom {})
    } else if store.token_metadata.contains_key(mint) {
        Ok(store)
    } else {
        Ok(
            StoreView {
                token_metadata: store.token_metadata.insert(
                    mint,
                    TokenMetadataView { name, music_uri, id, mint },
                ),
                ..store
            },
        )
    }
}

/// Registers an asset: stores its name, content address and number under its
/// identifier. Only the form of the three texts is checked. What is
/// registered stays: a later registration under the same identifier is
/// accepted and changes nothing.
pub fn initialize_token_metadata(store: &mut Store, id: u64, name: String, music_uri: String, mint: String) -> (result:
    Result<(), ContractError>)
    ensures
        match result {
            Ok(()) => spec_initialize_token_metadata(old(store)@, id, name@, music_uri@, mint@) == Ok::<
                StoreView,
                ContractError,
            >(final(store)@),
            Err(e) => spec_initialize_token_metadata(old(store)@, id, name@, music_uri@, mint@) == Err::<
                StoreView,
                ContractError,
            >(e) && final(store)@ == old(store)@,
        },
{
    if name.as_str().unicode_len() > MAX_NAME_LEN {
        return Err(ContractError::NameTooLong {});
    }
    if music_uri.as_str().unicode_len() > MAX_URI_LEN {
        return Err(ContractError::UriTooLong {});
    }
    if !is_factory_denom(mint.as_str()) {
        return Err(ContractError::InvalidDenom {});
    }
    if store.token_metadata.has(&mint) {
        return Ok(());
    }
    let metadata = TokenMetadata { name, music_uri, id, mint: mint.clone() };
    store.token_metadata.put(mint, metadata);
    Ok(())
}

/// Metadata is set once: after a registration that was accepted, the record
/// under its identifier is the one that was there before, or, where none
/// was, the one registered; and no later registration changes it.
pub proof fn lemma_metadata_set_once(
    store: StoreView,
    mint: Seq<char>,
    id: u64,
    name: Seq<char>,
    music_uri: Seq<char>,
    later_id: u64,
    later_name: Seq<char>,
    later_music_uri: Seq<char>,
)
    ensures
        spec_initialize_token_metadata(store, id, name, music_uri, mint) matches Ok(after) ==> {
            &&& after.token_metadata.contains_key(mint)
            &&& after.token_metadata[mint] == (if store.token_metadata.contains_key(mint) {
                store.token_metadata[mint]
            } else {
                TokenMetadataView { name, music_uri, id, mint }
            })
            &&& left_by(
                after,
                spec_initialize_token_metadata(after, later_id, later_name, later_music_uri, mint),
            ) == after
        },
{
}

} // verus!
