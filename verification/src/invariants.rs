//! What holds of every state the commands can reach, and of every step
//! between two of them.

use vstd::prelude::*;
use crate::contract::{spec_execute, spec_query};
use crate::denom::spec_is_factory_denom;
use crate::error::ContractError;
use crate::msg::{Coin, ExecuteMsg, QueryMsg, QueryResponseView};
use crate::state::StoreView;

verus! {

impl StoreView {
    /// Every record is stored under an accepted identifier and names that
    /// identifier, and an asset has a vault exactly when it has an oracle.
    pub open spec fn consistent(self) -> bool {
        &&& forall|mint: Seq<char>| #[trigger]
            self.token_metadata.contains_key(mint) ==> spec_is_factory_denom(mint)
                && self.token_metadata[mint].mint == mint
        &&& forall|mint: Seq<char>| #[trigger]
            self.viewership_oracles.contains_key(mint) ==> spec_is_factory_denom(mint)
                && self.viewership_oracles[mint].mint == mint && self.token_vaults.contains_key(mint)
        &&& forall|mint: Seq<char>| #[trigger]
            self.token_vaults.contains_key(mint) ==> spec_is_factory_denom(mint) && self.token_vaults[mint].mint
                == mint && self.viewership_oracles.contains_key(mint)
    }

    /// `later` keeps every record of `self`, and in it no metadata has
    /// changed, no view count and no collected total has fallen, no curve
    /// constant, threshold or authority has changed, and no vault that was set
    /// up has other addresses.
    pub open spec fn advances_to(self, later: StoreView) -> bool {
        &&& self.config matches Some(config) ==> later.config is Some && later.config->0.authority
            == config.authority
        &&& forall|mint: Seq<char>| #[trigger]
            self.token_metadata.contains_key(mint) ==> later.token_metadata.contains_key(mint)
                && later.token_metadata[mint] == self.token_metadata[mint]
        &&& forall|mint: Seq<char>| #[trigger]
            self.viewership_oracles.contains_key(mint) ==> {
                &&& later.viewership_oracles.contains_key(mint)
                &&& later.viewership_oracles[mint].view_count >= self.viewership_oracles[mint].view_count
                &&& later.viewership_oracles[mint].price_params == self.viewership_oracles[mint].price_params
            }
        &&& forall|mint: Seq<char>| #[trigger]
            self.token_vaults.contains_key(mint) ==> {
                &&& later.token_vaults.contains_key(mint)
                &&& later.token_vaults[mint].total_collected >= self.token_vaults[mint].total_collected
                &&& later.token_vaults[mint].liquidity_threshold == self.token_vaults[mint].liquidity_threshold
                &&& later.token_vaults[mint].dex_pool == self.token_vaults[mint].dex_pool
                &&& self.token_vaults[mint].vault_account is Some ==> {
                    &&& later.token_vaults[mint].vault_account == self.token_vaults[mint].vault_account
                    &&& later.token_vaults[mint].inj_vault_wallet == self.token_vaults[mint].inj_vault_wallet
                }
            }
    }
}

/// Every command that succeeds takes a consistent state to a consistent
/// state that advances it.
pub proof fn lemma_execute_keeps_invariants(
    store: StoreView,
    sender: Seq<char>,
    now: u64,
    funds: Seq<Coin>,
    msg: ExecuteMsg,
)
    requires
        store.consistent(),
    ensures
        spec_execute(store, sender, now, funds, msg) matches Ok((later, _)) ==> later.consistent()
            && store.advances_to(later),
{
}

/// The identifier a command is about, where it is about one.
pub open spec fn command_mint(msg: ExecuteMsg) -> Option<Seq<char>> {
    match msg {
        ExecuteMsg::UpdatePlatform { .. } => None,
        ExecuteMsg::Receive(_) => None,
        ExecuteMsg::InitializeTokenMetadata { mint, .. } => Some(mint@),
        ExecuteMsg::InitializeTokenOracle { mint } => Some(mint@),
        ExecuteMsg::SetupVaultAccount { mint } => Some(mint@),
        ExecuteMsg::UpdateOracle { mint, .. } => Some(mint@),
        ExecuteMsg::PurchaseToken { mint, .. } => Some(mint@),
        ExecuteMsg::MintToken { mint, .. } => Some(mint@),
    }
}

/// The identifier a query is about, where it is about one.
pub open spec fn query_mint(msg: QueryMsg) -> Option<Seq<char>> {
    match msg {
        QueryMsg::GetPlatformConfig {} => None,
        QueryMsg::GetTokenMetadata { mint } => Some(mint@),
        QueryMsg::GetTokenPrice { mint } => Some(mint@),
        QueryMsg::GetVaultBalance { mint } => Some(mint@),
    }
}

/// No command and no query succeeds on an identifier that does not begin
/// with `factory/`.
pub proof fn lemma_identifier_checked_everywhere(
    store: StoreView,
    sender: Seq<char>,
    now: u64,
    funds: Seq<Coin>,
    command: ExecuteMsg,
    question: QueryMsg,
)
    ensures
        command_mint(command) matches Some(mint) && !spec_is_factory_denom(mint) ==> spec_execute(
            store,
            sender,
            now,
            funds,
            command,
        ) is Err,
        query_mint(question) matches Some(mint) && !spec_is_factory_denom(mint) ==> spec_query(store, question)
            == Err::<QueryResponseView, ContractError>(ContractError::InvalidDenom {}),
{
}

/// A command changes no record under another identifier than its own.
pub proof fn lemma_other_assets_untouched(
    store: StoreView,
    sender: Seq<char>,
    now: u64,
    funds: Seq<Coin>,
    msg: ExecuteMsg,
    other: Seq<char>,
)
    requires
        command_mint(msg) != Some(other),
    ensures
        spec_execute(store, sender, now, funds, msg) matches Ok((later, _)) ==> {
            &&& later.token_metadata.contains_key(other) == store.token_metadata.contains_key(other)
            &&& later.viewership_oracles.contains_key(other) == store.viewership_oracles.contains_key(other)
            &&& later.token_vaults.contains_key(other) == store.token_vaults.contains_key(other)
            &&& later.token_metadata[other] == store.token_metadata[other]
            &&& later.viewership_oracles[other] == store.viewership_oracles[other]
            &&& later.token_vaults[other] == store.token_vaults[other]
        },
{
}

} // verus!
