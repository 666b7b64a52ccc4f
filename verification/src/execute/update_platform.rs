use vstd::prelude::*;
use crate::auth::authorize;
use crate::error::{ContractError, RecordKind};
use crate::state::{text_of, Config, ConfigView, Store, StoreView};

verus! {

/// The state after `sender` changed the platform wallet and, where one is
/// given, the oracle authority; or why the change is refused.
pub open spec fn spec_update_platform(
    store: StoreView,
    sender: Seq<char>,
    new_platform_wallet: Seq<char>,
    new_oracle_authority: Option<Seq<char>>,
) -> Result<StoreView, ContractError> {
    if store.config is None {
        Err(ContractError::NotFound { kind: RecordKind::Config })
    } else if sender != store.config->0.authority {
        Err(ContractError::Unauthorized {})
    } else {
        let config = store.config->0;
        Ok(
            StoreView {
                config: Some(
                    ConfigView {
                        platform_wallet: new_platform_wallet,
                        oracle_authority: match new_oracle_authority {
                            Some(a) => a,
                            None => config.oracle_authority,
                        },
                        authority: config.authority,
                    },
                ),
                ..store
            },
        )
    }
}

/// Changes the platform wallet and, where one is given, the oracle authority.
/// Only the platform authority may; the authority itself stays.
pub fn update_platform(
    store: &mut Store,
    sender: &String,
    new_platform_wallet: String,
    new_oracle_authority: Option<String>,
) -> (result: Result<(), ContractError>)
    ensures
        match result {
            Ok(()) => spec_update_platform(
                old(store)@,
                sender@,
                new_platform_wallet@,
                text_of(new_oracle_authority),
            ) == Ok::<StoreView, ContractError>(final(store)@),
            Err(e) => spec_update_platform(
                old(store)@,
                sender@,
                new_platform_wallet@,
                text_of(new_oracle_authority),
            ) == Err::<StoreView, ContractError>(e) && final(store)@ == old(store)@,
        },
{
    let config = match &store.config {
        Some(config) => config,
        None => { return Err(ContractError::NotFound { kind: RecordKind::Config }); },
    };
    authorize(sender, &config.authority)?;
    let oracle_authority = match new_oracle_authority {
        Some(a) => a,
        None => config.oracle_authority.clone(),
    };
    let updated = Config {
        platform_wallet: new_platform_wallet,
        oracle_authority,
        authority: config.authority.clone(),
    };
    store.config = Some(updated);
    Ok(())
}

} // verus!
