use viewership_market::contract::{instantiate, query};
use viewership_market::error::{ContractError, RecordKind};
use viewership_market::execute::{
    initialize_token_metadata, initialize_token_oracle, purchase_token, setup_vault_account, update_oracle,
};
use viewership_market::msg::{
    Coin, InstantiateMsg, PlatformConfigResponse, QueryMsg, QueryResponse, TokenMetadataResponse,
    TokenPriceResponse, VaultBalanceResponse,
};
use viewership_market::query::{get_platform_config, get_token_metadata, get_token_price, get_vault_balance};
use viewership_market::state::Store;
use viewership_market::table::Table;

const MINT: &str = "factory/abc/song1";

fn s(text: &str) -> String {
    text.to_string()
}

fn stocked() -> Store {
    let mut store = Store::new();
    let msg = InstantiateMsg { platform_wallet: s("wallet"), oracle_authority: s("oracle") };
    instantiate(&mut store, &s("admin"), msg).unwrap();
    initialize_token_metadata(&mut store, 7, s("Song"), s("ipfs://x"), s(MINT)).unwrap();
    initialize_token_oracle(&mut store, &s("creator"), 100, s(MINT)).unwrap();
    setup_vault_account(&mut store, s(MINT)).unwrap();
    update_oracle(&mut store, &s("oracle"), 200, s(MINT), 5).unwrap();
    store
}

#[test]
fn platform_config_is_answered_as_stored() {
    assert_eq!(
        get_platform_config(&stocked()),
        Ok(PlatformConfigResponse {
            platform_wallet: s("wallet"),
            oracle_authority: s("oracle"),
            authority: s("admin"),
        })
    );
}

#[test]
fn platform_config_needs_a_platform() {
    assert_eq!(
        get_platform_config(&Store::new()),
        Err(ContractError::NotFound { kind: RecordKind::Config })
    );
}

#[test]
fn metadata_is_answered_as_stored() {
    assert_eq!(
        get_token_metadata(&stocked(), s(MINT)),
        Ok(TokenMetadataResponse { name: s("Song"), music_uri: s("ipfs://x"), id: 7, mint: s(MINT) })
    );
}

#[test]
fn metadata_of_an_unknown_asset() {
    assert_eq!(
        get_token_metadata(&stocked(), s("factory/abc/song2")),
        Err(ContractError::NotFound { kind: RecordKind::TokenMetadata })
    );
}

#[test]
fn price_is_answered_from_the_curve() {
    assert_eq!(get_token_price(&stocked(), s(MINT)), Ok(TokenPriceResponse { price: 1_000_000_500 }));
}

#[test]
fn price_of_an_unknown_asset() {
    assert_eq!(
        get_token_price(&stocked(), s("factory/abc/song2")),
        Err(ContractError::NotFound { kind: RecordKind::ViewershipOracle })
    );
}

#[test]
fn vault_balance_is_the_collected_total() {
    let mut store = stocked();
    assert_eq!(get_vault_balance(&store, s(MINT)), Ok(VaultBalanceResponse { balance: 0 }));
    let funds = vec![Coin { denom: s("inj"), amount: 2_000_001_000 }];
    purchase_token(&mut store, &s("buyer"), &funds, s(MINT), 2).unwrap();
    assert_eq!(get_vault_balance(&store, s(MINT)), Ok(VaultBalanceResponse { balance: 1_950_000_975 }));
}

#[test]
fn vault_balance_of_an_unknown_asset() {
    assert_eq!(
        get_vault_balance(&stocked(), s("factory/abc/song2")),
        Err(ContractError::NotFound { kind: RecordKind::TokenVault })
    );
}

#[test]
fn identifier_without_prefix_is_refused_by_every_query() {
    let store = stocked();
    assert_eq!(get_token_metadata(&store, s("abc/song1")), Err(ContractError::InvalidDenom {}));
    assert_eq!(get_token_price(&store, s("abc/song1")), Err(ContractError::InvalidDenom {}));
    assert_eq!(get_vault_balance(&store, s("abc/song1")), Err(ContractError::InvalidDenom {}));
}

#[test]
fn query_dispatches_every_query() {
    let store = stocked();
    assert_eq!(
        query(&store, QueryMsg::GetPlatformConfig {}),
        Ok(QueryResponse::PlatformConfig(PlatformConfigResponse {
            platform_wallet: s("wallet"),
            oracle_authority: s("oracle"),
            authority: s("admin"),
        }))
    );
    assert_eq!(
        query(&store, QueryMsg::GetTokenMetadata { mint: s(MINT) }),
        Ok(QueryResponse::TokenMetadata(TokenMetadataResponse {
            name: s("Song"),
            music_uri: s("ipfs://x"),
            id: 7,
            mint: s(MINT),
        }))
    );
    assert_eq!(
        query(&store, QueryMsg::GetTokenPrice { mint: s(MINT) }),
        Ok(QueryResponse::TokenPrice(TokenPriceResponse { price: 1_000_000_500 }))
    );
    assert_eq!(
        query(&store, QueryMsg::GetVaultBalance { mint: s(MINT) }),
        Ok(QueryResponse::VaultBalance(VaultBalanceResponse { balance: 0 }))
    );
    assert_eq!(
        query(&store, QueryMsg::GetVaultBalance { mint: s("abc/song1") }),
        Err(ContractError::InvalidDenom {})
    );
}

#[test]
fn table_holds_what_was_put() {
    let mut table: Table<u64> = Table::new();
    assert!(!table.has(&s("a")));
    assert_eq!(table.get(&s("a")), None);
    table.put(s("a"), 1);
    table.put(s("b"), 2);
    assert!(table.has(&s("a")));
    assert_eq!(table.get(&s("a")), Some(&1));
    assert_eq!(table.get(&s("b")), Some(&2));
    assert_eq!(table.get(&s("c")), None);
    assert_eq!(table.get(&s("")), None);
}

#[test]
fn table_put_replaces_under_the_same_key() {
    let mut table: Table<u64> = Table::new();
    table.put(s("a"), 1);
    table.put(s("b"), 2);
    table.put(s("a"), 3);
    assert_eq!(table.get(&s("a")), Some(&3));
    assert_eq!(table.get(&s("b")), Some(&2));
}
