use vstd::prelude::*;
use crate::denom::{is_factory_denom, spec_is_factory_denom};
use crate::error::ContractError;
use crate::state::{
    PriceParameters, Store, StoreView, TokenVault, TokenVaultView, ViewershipOracle, ViewershipOracleView,
};

verus! {

/// The curve constants every oracle starts with.
pub const DEFAULT_K: u64 = 1;

pub const DEFAULT_M: u64 = 100;

/// The liquidity threshold every vault starts with.
pub const LIQUIDITY_THRESHOLD: u128 = 10_000_000_000;

/// The oracle an asset starts with.
pub open spec fn fresh_oracle(mint: Seq<char>, now: u64) -> ViewershipOracleView {
    ViewershipOracleView {
        mint,
        view_count: 0,
        last_updated: now,
        price_params: PriceParameters { k: DEFAULT_K, m: DEFAULT_M },
    }
}

/// The vault an asset starts with: not set up, with its creator standing in
/// as custody wallet.
pub open spec fn fresh_vault(mint: Seq<char>, creator: Seq<char>) -> TokenVaultView {
    TokenVaultView {
        mint,
        vault_account: None,
        inj_vault_wallet: creator,
        liquidity_threshold: LIQUIDITY_THRESHOLD,
        total_collected: 0,
        dex_pool: None,
    }
}

/// The state after the oracle of `mint` was created at time `now` by
/// `sender`, or why that is refused.
pub open spec fn spec_initialize_token_oracle(
    store: StoreView,
    sender: Seq<char>,
    now: u64,
    mint: Seq<char>,
) -> Result<StoreView, ContractError> {
    if !spec_is_factory_denom(mint) {
        Err(ContractError::InvalidDenom {})
    } else if store.viewership_oracles.contains_key(mint) {
        Err(ContractError::OracleAlreadyExists {})
    } else {
        Ok(
            StoreView {
                viewership_oracles: store.viewership_oracles.insert(mint, fresh_oracle(mint, now)),
                token_vaults: store.token_vaults.insert(mint, fresh_vault(mint, sender)),
                ..store
            },
        )
    }
}

/// Creates the oracle of `mint`, and with it the vault, not yet set up. An
/// asset gets an oracle once: a second call is refused and changes nothing.
pub fn initialize_token_oracle(store: &mut Store, sender: &String, now: u64, mint: String) -> (result: Result<
    (),
    ContractError,
>)
    ensures
        match result {
            Ok(()) => spec_initialize_token_oracle(old(store)@, sender@, now, mint@) == Ok::<
                StoreView,
                ContractError,
            >(final(store)@),
            Err(e) => spec_initialize_token_oracle(old(store)@, sender@, now, mint@) == Err::<
                StoreView,
                ContractError,
            >(e) && final(store)@ == old(store)@,
        },
{
    if !is_factory_denom(mint.as_str()) {
        return Err(ContractError::InvalidDenom {});
    }
    if store.viewership_oracles.has(&mint) {
        return Err(ContractError::OracleAlreadyExists {});
    }
    let oracle = ViewershipOracle {
        mint: mint.clone(),
        view_count: 0,
        last_updated: now,
        price_params: PriceParameters { k: DEFAULT_K, m: DEFAULT_M },
    };
    let vault = TokenVault {
        mint: mint.clone(),
        vault_account: None,
        inj_vault_wallet: sender.clone(),
        liquidity_threshold: LIQUIDITY_THRESHOLD,
        total_collected: 0,
        dex_pool: None,
    };
    store.viewership_oracles.put(mint.clone(), oracle);
    store.token_vaults.put(mint, vault);
    Ok(())
}

/// The state a command leaves behind: the new state where it succeeded, the
/// old one where it was refused.
pub open spec fn left_by(before: StoreView, step: Result<StoreView, ContractError>) -> StoreView {
    match step {
        Ok(after) => after,
        Err(_) => before,
    }
}

/// Of two creations of an oracle for one accepted identifier, the second is
/// refused because the oracle exists, and the oracle is afterwards what it was
/// before the second: where the first created it, the oracle the first made.
pub proof fn lemma_oracle_created_once(
    store: StoreView,
    mint: Seq<char>,
    first_sender: Seq<char>,
    first_time: u64,
    second_sender: Seq<char>,
    second_time: u64,
)
    requires
        spec_is_factory_denom(mint),
    ensures
        ({
            let first = spec_initialize_token_oracle(store, first_sender, first_time, mint);
            let between = left_by(store, first);
            let second = spec_initialize_token_oracle(between, second_sender, second_time, mint);
            &&& second == Err::<StoreView, ContractError>(ContractError::OracleAlreadyExists {})
            &&& left_by(between, second) == between
            &&& first is Ok ==> left_by(between, second).viewership_oracles[mint] == fresh_oracle(
                mint,
                first_time,
            )
        }),
{
}

} // verus!
