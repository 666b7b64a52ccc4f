//! The three entry points: setting the platform up, carrying out a command,
//! answering a query.

use vstd::prelude::*;
use crate::error::ContractError;
use crate::execute::{
    initialize_token_metadata, initialize_token_oracle, mint_token, purchase_token, receive_cw20,
    setup_vault_account, spec_initialize_token_metadata, spec_initialize_token_oracle, spec_mint_token,
    spec_purchase_token, spec_setup_vault_account, spec_update_oracle, spec_update_platform, update_oracle,
    update_platform,
};
use crate::msg::{
    Coin, ExecuteMsg, InstantiateMsg, QueryMsg, QueryResponse, QueryResponseView, Response, ResponseView,
    TransferNoticeView,
};
use crate::query::{
    get_platform_config, get_token_metadata, get_token_price, get_vault_balance, spec_get_platform_config,
    spec_get_token_metadata, spec_get_token_price, spec_get_vault_balance,
};
use crate::state::{text_of, Config, ConfigView, Store, StoreView};

verus! {

/// The state after the platform was set up by `sender`.
pub open spec fn spec_instantiate(store: StoreView, sender: Seq<char>, msg: InstantiateMsg) -> StoreView {
    StoreView {
        config: Some(
            ConfigView {
                platform_wallet: msg.platform_wallet@,
                oracle_authority: msg.oracle_authority@,
                authority: sender,
            },
        ),
        ..store
    }
}

/// Sets the platform up: stores the two addresses of `msg` and makes `sender`
/// the authority.
pub fn instantiate(store: &mut Store, sender: &String, msg: InstantiateMsg) -> (result: Result<(), ContractError>)
    ensures
        result is Ok,
        final(store)@ == spec_instantiate(old(store)@, sender@, msg),
        old(store)@.consistent() ==> final(store)@.consistent(),
{
    store.config = Some(
        Config {
            platform_wallet: msg.platform_wallet,
            oracle_authority: msg.oracle_authority,
            authority: sender.clone(),
        },
    );
    Ok(())
}

/// A command that only changes the state hands back `Done`.
pub open spec fn done(step: Result<StoreView, ContractError>) -> Result<(StoreView, ResponseView), ContractError> {
    match step {
        Ok(store) => Ok((store, ResponseView::Done)),
        Err(e) => Err(e),
    }
}

/// What the command `msg`, sent by `sender` at time `now` with `funds`, does
/// to the state and hands back, or why it is refused.
pub open spec fn spec_execute(store: StoreView, sender: Seq<char>, now: u64, funds: Seq<Coin>, msg: ExecuteMsg) -> Result<
    (StoreView, ResponseView),
    ContractError,
> {
    match msg {
        ExecuteMsg::UpdatePlatform { new_platform_wallet, new_oracle_authority } => done(
            spec_update_platform(store, sender, new_platform_wallet@, text_of(new_oracle_authority)),
        ),
        ExecuteMsg::InitializeTokenMetadata { id, name, music_uri, mint } => done(
            spec_initialize_token_metadata(store, id, name@, music_uri@, mint@),
        ),
        ExecuteMsg::InitializeTokenOracle { mint } => done(
            spec_initialize_token_oracle(store, sender, now, mint@),
        ),
        ExecuteMsg::SetupVaultAccount { mint } => done(spec_setup_vault_account(store, mint@)),
        ExecuteMsg::UpdateOracle { mint, new_view_count } => done(
            spec_update_oracle(store, sender, now, mint@, new_view_count),
        ),
        ExecuteMsg::PurchaseToken { mint, amount_tokens } => match spec_purchase_token(
            store,
            sender,
            funds,
            mint@,
            amount_tokens,
        ) {
            Ok((after, receipt)) => Ok((after, ResponseView::Purchase(receipt))),
            Err(e) => Err(e),
        },
        ExecuteMsg::MintToken { mint, recipient, amount } => match spec_mint_token(
            store,
            sender,
            mint@,
            recipient@,
            amount,
        ) {
            Ok(order) => Ok((store, ResponseView::Mint(order))),
            Err(e) => Err(e),
        },
        ExecuteMsg::Receive(cw20_msg) => Ok(
            (
                store,
                ResponseView::Received(
                    TransferNoticeView {
                        sender: cw20_msg.sender@,
                        amount: cw20_msg.amount,
                        from_contract: sender,
                    },
                ),
            ),
        ),
    }
}

/// Carries out one command. Either the whole command takes effect, or it is
/// refused and the state is as it was.
pub fn execute(store: &mut Store, sender: &String, now: u64, funds: &Vec<Coin>, msg: ExecuteMsg) -> (result: Result<
    Response,
    ContractError,
>)
    ensures
        match result {
            Ok(response) => spec_execute(old(store)@, sender@, now, funds@, msg) == Ok::<
                (StoreView, ResponseView),
                ContractError,
            >((final(store)@, response@)),
            Err(e) => spec_execute(old(store)@, sender@, now, funds@, msg) == Err::<
                (StoreView, ResponseView),
                ContractError,
            >(e) && final(store)@ == old(store)@,
        },
{
    match msg {
        ExecuteMsg::UpdatePlatform { new_platform_wallet, new_oracle_authority } => {
            update_platform(store, sender, new_platform_wallet, new_oracle_authority)?;
            Ok(Response::Done)
        },
        ExecuteMsg::InitializeTokenMetadata { id, name, music_uri, mint } => {
            initialize_token_metadata(store, id, name, music_uri, mint)?;
            Ok(Response::Done)
        },
        ExecuteMsg::InitializeTokenOracle { mint } => {
            initialize_token_oracle(store, sender, now, mint)?;
            Ok(Response::Done)
        },
        ExecuteMsg::SetupVaultAccount { mint } => {
            setup_vault_account(store, mint)?;
            Ok(Response::Done)
        },
        ExecuteMsg::UpdateOracle { mint, new_view_count } => {
            update_oracle(store, sender, now, mint, new_view_count)?;
            Ok(Response::Done)
        },
        ExecuteMsg::PurchaseToken { mint, amount_tokens } => {
            let receipt = purchase_token(store, sender, funds, mint, amount_tokens)?;
            Ok(Response::Purchase(receipt))
        },
        ExecuteMsg::MintToken { mint, recipient, amount } => {
            let order = mint_token(store, sender, mint, recipient, amount)?;
            Ok(Response::Mint(order))
        },
        ExecuteMsg::Receive(cw20_msg) => {
            let notice = receive_cw20(sender, cw20_msg)?;
            Ok(Response::Received(notice))
        },
    }
}

/// What the query `msg` answers in the state `store`.
pub open spec fn spec_query(store: StoreView, msg: QueryMsg) -> Result<QueryResponseView, ContractError> {
    match msg {
        QueryMsg::GetPlatformConfig {} => match spec_get_platform_config(store) {
            Ok(r) => Ok(QueryResponseView::PlatformConfig(r)),
            Err(e) => Err(e),
        },
        QueryMsg::GetTokenMetadata { mint } => match spec_get_token_metadata(store, mint@) {
            Ok(r) => Ok(QueryResponseView::TokenMetadata(r)),
            Err(e) => Err(e),
        },
        QueryMsg::GetTokenPrice { mint } => match spec_get_token_price(store, mint@) {
            Ok(r) => Ok(QueryResponseView::TokenPrice(r)),
            Err(e) => Err(e),
        },
        QueryMsg::GetVaultBalance { mint } => match spec_get_vault_balance(store, mint@) {
            Ok(r) => Ok(QueryResponseView::VaultBalance(r)),
            Err(e) => Err(e),
        },
    }
}

/// Answers one query.
pub fn query(store: &Store, msg: QueryMsg) -> (result: Result<QueryResponse, ContractError>)
    ensures
        match result {
            Ok(response) => spec_query(store@, msg) == Ok::<QueryResponseView, ContractError>(response@),
            Err(e) => spec_query(store@, msg) == Err::<QueryResponseView, ContractError>(e),
        },
{
    match msg {
        QueryMsg::GetPlatformConfig {} => Ok(QueryResponse::PlatformConfig(get_platform_config(store)?)),
        QueryMsg::GetTokenMetadata { mint } => Ok(QueryResponse::TokenMetadata(get_token_metadata(store, mint)?)),
        QueryMsg::GetTokenPrice { mint } => Ok(QueryResponse::TokenPrice(get_token_price(store, mint)?)),
        QueryMsg::GetVaultBalance { mint } => Ok(QueryResponse::VaultBalance(get_vault_balance(store, mint)?)),
    }
}

} // verus!
