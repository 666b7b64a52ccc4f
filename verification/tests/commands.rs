use viewership_market::auth::authorize;
use viewership_market::contract::{execute, instantiate};
use viewership_market::error::{ContractError, RecordKind};
use viewership_market::execute::{
    initialize_token_metadata, initialize_token_oracle, mint_token, purchase_token, receive_cw20,
    setup_vault_account, update_oracle, update_platform, LIQUIDITY_THRESHOLD,
};
use viewership_market::msg::{
    Coin, Cw20ReceiveMsg, ExecuteMsg, InstantiateMsg, MintOrder, Response, Transfer, TransferNotice,
};
use viewership_market::state::{PriceParameters, Store, TokenMetadata, TokenVault, ViewershipOracle};

const MINT: &str = "factory/abc/song1";

fn s(text: &str) -> String {
    text.to_string()
}

fn inj(amount: u128) -> Vec<Coin> {
    vec![Coin { denom: s("inj"), amount }]
}

/// A platform set up by `admin`, with `wallet` and `oracle` in the other roles.
fn platform() -> Store {
    let mut store = Store::new();
    let msg = InstantiateMsg { platform_wallet: s("wallet"), oracle_authority: s("oracle") };
    assert_eq!(instantiate(&mut store, &s("admin"), msg), Ok(()));
    store
}

/// A platform on which `MINT` has an oracle with 5 views and a vault set up.
fn market() -> Store {
    let mut store = platform();
    assert_eq!(initialize_token_oracle(&mut store, &s("creator"), 100, s(MINT)), Ok(()));
    assert_eq!(setup_vault_account(&mut store, s(MINT)), Ok(()));
    assert_eq!(update_oracle(&mut store, &s("oracle"), 200, s(MINT), 5), Ok(()));
    store
}

#[test]
fn guard_passes_the_holder_of_the_role() {
    assert_eq!(authorize(&s("admin"), &s("admin")), Ok(()));
}

#[test]
fn guard_refuses_anyone_else() {
    assert_eq!(authorize(&s("admin"), &s("Admin")), Err(ContractError::Unauthorized {}));
    assert_eq!(authorize(&s(""), &s("admin")), Err(ContractError::Unauthorized {}));
}

#[test]
fn instantiate_stores_the_three_roles() {
    let store = platform();
    let config = store.config.unwrap();
    assert_eq!(config.platform_wallet, "wallet");
    assert_eq!(config.oracle_authority, "oracle");
    assert_eq!(config.authority, "admin");
}

#[test]
fn update_platform_changes_wallet_and_oracle_authority() {
    let mut store = platform();
    assert_eq!(update_platform(&mut store, &s("admin"), s("wallet2"), Some(s("oracle2"))), Ok(()));
    let config = store.config.clone().unwrap();
    assert_eq!(config.platform_wallet, "wallet2");
    assert_eq!(config.oracle_authority, "oracle2");
    assert_eq!(config.authority, "admin");
}

#[test]
fn update_platform_keeps_the_oracle_authority_when_none_is_given() {
    let mut store = platform();
    assert_eq!(update_platform(&mut store, &s("admin"), s("wallet2"), None), Ok(()));
    let config = store.config.clone().unwrap();
    assert_eq!(config.platform_wallet, "wallet2");
    assert_eq!(config.oracle_authority, "oracle");
}

#[test]
fn update_platform_is_for_the_authority_only() {
    let mut store = platform();
    let before = store.clone();
    assert_eq!(
        update_platform(&mut store, &s("oracle"), s("wallet2"), None),
        Err(ContractError::Unauthorized {})
    );
    assert_eq!(store, before);
}

#[test]
fn update_platform_needs_a_platform() {
    let mut store = Store::new();
    assert_eq!(
        update_platform(&mut store, &s("admin"), s("wallet2"), None),
        Err(ContractError::NotFound { kind: RecordKind::Config })
    );
}

#[test]
fn metadata_is_stored_under_the_identifier() {
    let mut store = platform();
    assert_eq!(initialize_token_metadata(&mut store, 7, s("Song"), s("ipfs://x"), s(MINT)), Ok(()));
    assert_eq!(
        store.token_metadata.get(&s(MINT)),
        Some(&TokenMetadata { name: s("Song"), music_uri: s("ipfs://x"), id: 7, mint: s(MINT) })
    );
}

#[test]
fn metadata_is_set_once() {
    let mut store = platform();
    assert_eq!(initialize_token_metadata(&mut store, 7, s("Song"), s("ipfs://x"), s(MINT)), Ok(()));
    let before = store.clone();
    assert_eq!(initialize_token_metadata(&mut store, 8, s("Other"), s("ipfs://y"), s(MINT)), Ok(()));
    assert_eq!(store, before);
    assert_eq!(
        store.token_metadata.get(&s(MINT)),
        Some(&TokenMetadata { name: s("Song"), music_uri: s("ipfs://x"), id: 7, mint: s(MINT) })
    );
    assert_eq!(initialize_token_metadata(&mut store, 7, s("Song"), s("ipfs://x"), s(MINT)), Ok(()));
    assert_eq!(store, before);
}

#[test]
fn metadata_is_set_once_under_each_identifier() {
    let mut store = platform();
    assert_eq!(initialize_token_metadata(&mut store, 7, s("Song"), s("ipfs://x"), s(MINT)), Ok(()));
    assert_eq!(initialize_token_metadata(&mut store, 8, s("Two"), s("ipfs://y"), s("factory/abc/song2")), Ok(()));
    assert_eq!(store.token_metadata.get(&s(MINT)).unwrap().id, 7);
    assert_eq!(store.token_metadata.get(&s("factory/abc/song2")).unwrap().id, 8);
}

#[test]
fn metadata_form_is_checked_on_a_registered_identifier_too() {
    let mut store = platform();
    assert_eq!(initialize_token_metadata(&mut store, 7, s("Song"), s("ipfs://x"), s(MINT)), Ok(()));
    let before = store.clone();
    assert_eq!(
        initialize_token_metadata(&mut store, 8, "n".repeat(33), s("ipfs://y"), s(MINT)),
        Err(ContractError::NameTooLong {})
    );
    assert_eq!(
        initialize_token_metadata(&mut store, 8, s("n"), "u".repeat(45), s(MINT)),
        Err(ContractError::UriTooLong {})
    );
    assert_eq!(store, before);
}

#[test]
fn execute_keeps_registered_metadata() {
    let mut store = platform();
    let msg = ExecuteMsg::InitializeTokenMetadata { id: 7, name: s("Song"), music_uri: s("ipfs://x"), mint: s(MINT) };
    assert_eq!(execute(&mut store, &s("admin"), 10, &vec![], msg), Ok(Response::Done));
    let msg = ExecuteMsg::InitializeTokenMetadata { id: 9, name: s("New"), music_uri: s("ipfs://z"), mint: s(MINT) };
    assert_eq!(execute(&mut store, &s("stranger"), 20, &vec![], msg), Ok(Response::Done));
    let stored = store.token_metadata.get(&s(MINT)).unwrap();
    assert_eq!(stored.id, 7);
    assert_eq!(stored.name, "Song");
    assert_eq!(stored.music_uri, "ipfs://x");
}

#[test]
fn metadata_name_of_32_characters_is_accepted() {
    let mut store = platform();
    assert_eq!(initialize_token_metadata(&mut store, 1, "n".repeat(32), s(""), s(MINT)), Ok(()));
}

#[test]
fn metadata_name_of_33_characters_is_refused() {
    let mut store = platform();
    let before = store.clone();
    assert_eq!(
        initialize_token_metadata(&mut store, 1, "n".repeat(33), s(""), s(MINT)),
        Err(ContractError::NameTooLong {})
    );
    assert_eq!(store, before);
}

#[test]
fn metadata_uri_of_44_characters_is_accepted() {
    let mut store = platform();
    assert_eq!(initialize_token_metadata(&mut store, 1, s("n"), "u".repeat(44), s(MINT)), Ok(()));
}

#[test]
fn metadata_uri_of_45_characters_is_refused() {
    let mut store = platform();
    assert_eq!(
        initialize_token_metadata(&mut store, 1, s("n"), "u".repeat(45), s(MINT)),
        Err(ContractError::UriTooLong {})
    );
}

#[test]
fn metadata_lengths_count_characters() {
    let mut store = platform();
    assert_eq!(initialize_token_metadata(&mut store, 1, "é".repeat(32), "歌".repeat(44), s(MINT)), Ok(()));
    assert_eq!(
        initialize_token_metadata(&mut store, 1, "é".repeat(33), s(""), s(MINT)),
        Err(ContractError::NameTooLong {})
    );
}

#[test]
fn metadata_name_is_checked_before_uri_and_identifier() {
    let mut store = platform();
    assert_eq!(
        initialize_token_metadata(&mut store, 1, "n".repeat(33), "u".repeat(45), s("abc/song1")),
        Err(ContractError::NameTooLong {})
    );
    assert_eq!(
        initialize_token_metadata(&mut store, 1, s("n"), "u".repeat(45), s("abc/song1")),
        Err(ContractError::UriTooLong {})
    );
    assert_eq!(
        initialize_token_metadata(&mut store, 1, s("n"), s("u"), s("abc/song1")),
        Err(ContractError::InvalidDenom {})
    );
}

#[test]
fn oracle_starts_without_views() {
    let mut store = platform();
    assert_eq!(initialize_token_oracle(&mut store, &s("creator"), 100, s(MINT)), Ok(()));
    assert_eq!(
        store.viewership_oracles.get(&s(MINT)),
        Some(&ViewershipOracle {
            mint: s(MINT),
            view_count: 0,
            last_updated: 100,
            price_params: PriceParameters { k: 1, m: 100 },
        })
    );
}

#[test]
fn vault_starts_not_set_up() {
    let mut store = platform();
    assert_eq!(initialize_token_oracle(&mut store, &s("creator"), 100, s(MINT)), Ok(()));
    assert_eq!(LIQUIDITY_THRESHOLD, 10_000_000_000);
    assert_eq!(
        store.token_vaults.get(&s(MINT)),
        Some(&TokenVault {
            mint: s(MINT),
            vault_account: None,
            inj_vault_wallet: s("creator"),
            liquidity_threshold: 10_000_000_000,
            total_collected: 0,
            dex_pool: None,
        })
    );
}

#[test]
fn oracle_is_created_once() {
    let mut store = platform();
    assert_eq!(initialize_token_oracle(&mut store, &s("creator"), 100, s(MINT)), Ok(()));
    let before = store.clone();
    assert_eq!(
        initialize_token_oracle(&mut store, &s("other"), 999, s(MINT)),
        Err(ContractError::OracleAlreadyExists {})
    );
    assert_eq!(store, before);
    assert_eq!(store.viewership_oracles.get(&s(MINT)).unwrap().last_updated, 100);
}

#[test]
fn oracle_needs_an_accepted_identifier() {
    let mut store = platform();
    assert_eq!(
        initialize_token_oracle(&mut store, &s("creator"), 100, s("abc/song1")),
        Err(ContractError::InvalidDenom {})
    );
    assert!(!store.viewership_oracles.has(&s("abc/song1")));
}

#[test]
fn oracles_of_different_assets_are_independent() {
    let mut store = market();
    assert_eq!(initialize_token_oracle(&mut store, &s("creator2"), 300, s("factory/abc/song2")), Ok(()));
    assert_eq!(store.viewership_oracles.get(&s(MINT)).unwrap().view_count, 5);
    assert_eq!(store.viewership_oracles.get(&s("factory/abc/song2")).unwrap().view_count, 0);
    assert_eq!(update_oracle(&mut store, &s("oracle"), 400, s("factory/abc/song2"), 9), Ok(()));
    assert_eq!(store.viewership_oracles.get(&s(MINT)).unwrap().view_count, 5);
    assert_eq!(store.viewership_oracles.get(&s(MINT)).unwrap().last_updated, 200);
}

#[test]
fn vault_setup_derives_both_addresses() {
    let mut store = platform();
    assert_eq!(initialize_token_oracle(&mut store, &s("creator"), 100, s(MINT)), Ok(()));
    assert_eq!(setup_vault_account(&mut store, s(MINT)), Ok(()));
    let vault = store.token_vaults.get(&s(MINT)).unwrap();
    assert_eq!(vault.vault_account, Some(s("inj1vabc_song1")));
    assert_eq!(vault.inj_vault_wallet, "inj1iabc_song1");
    assert_eq!(vault.total_collected, 0);
    assert_eq!(vault.liquidity_threshold, 10_000_000_000);
}

#[test]
fn vaults_of_different_assets_get_different_addresses() {
    let mut store = platform();
    for mint in ["factory/ab/c", "factory/a/bc"] {
        assert_eq!(initialize_token_oracle(&mut store, &s("creator"), 100, s(mint)), Ok(()));
        assert_eq!(setup_vault_account(&mut store, s(mint)), Ok(()));
    }
    let one = store.token_vaults.get(&s("factory/ab/c")).unwrap();
    let two = store.token_vaults.get(&s("factory/a/bc")).unwrap();
    assert_eq!(one.vault_account, Some(s("inj1vab_c")));
    assert_eq!(two.vault_account, Some(s("inj1va_bc")));
    assert_ne!(one.vault_account, two.vault_account);
    assert_ne!(one.inj_vault_wallet, two.inj_vault_wallet);
    assert_ne!(one.vault_account, Some(one.inj_vault_wallet.clone()));
    assert_ne!(two.vault_account, Some(two.inj_vault_wallet.clone()));
}

#[test]
fn vault_is_set_up_once() {
    let mut store = platform();
    assert_eq!(initialize_token_oracle(&mut store, &s("creator"), 100, s(MINT)), Ok(()));
    assert_eq!(setup_vault_account(&mut store, s(MINT)), Ok(()));
    let before = store.clone();
    assert_eq!(setup_vault_account(&mut store, s(MINT)), Err(ContractError::VaultAlreadySetup {}));
    assert_eq!(store, before);
    assert_eq!(store.token_vaults.get(&s(MINT)).unwrap().vault_account, Some(s("inj1vabc_song1")));
}

#[test]
fn vault_setup_needs_a_vault() {
    let mut store = platform();
    assert_eq!(
        setup_vault_account(&mut store, s(MINT)),
        Err(ContractError::NotFound { kind: RecordKind::TokenVault })
    );
}

#[test]
fn vault_setup_needs_an_accepted_identifier() {
    let mut store = platform();
    assert_eq!(setup_vault_account(&mut store, s("abc/song1")), Err(ContractError::InvalidDenom {}));
}

#[test]
fn vault_setup_needs_three_segments() {
    let mut store = platform();
    assert_eq!(initialize_token_oracle(&mut store, &s("creator"), 100, s("factory/abc")), Ok(()));
    let before = store.clone();
    assert_eq!(setup_vault_account(&mut store, s("factory/abc")), Err(ContractError::InvalidDenom {}));
    assert_eq!(store, before);
}

#[test]
fn oracle_update_sets_count_and_time() {
    let store = market();
    let oracle = store.viewership_oracles.get(&s(MINT)).unwrap();
    assert_eq!(oracle.view_count, 5);
    assert_eq!(oracle.last_updated, 200);
    assert_eq!(oracle.price_params, PriceParameters { k: 1, m: 100 });
}

#[test]
fn oracle_update_with_the_same_count_is_accepted() {
    let mut store = market();
    assert_eq!(update_oracle(&mut store, &s("oracle"), 300, s(MINT), 5), Ok(()));
    let oracle = store.viewership_oracles.get(&s(MINT)).unwrap();
    assert_eq!(oracle.view_count, 5);
    assert_eq!(oracle.last_updated, 300);
}

#[test]
fn oracle_update_with_a_lower_count_is_refused() {
    let mut store = market();
    let before = store.clone();
    assert_eq!(
        update_oracle(&mut store, &s("oracle"), 300, s(MINT), 4),
        Err(ContractError::InvalidViewCount {})
    );
    assert_eq!(store, before);
    let oracle = store.viewership_oracles.get(&s(MINT)).unwrap();
    assert_eq!(oracle.view_count, 5);
    assert_eq!(oracle.last_updated, 200);
}

#[test]
fn oracle_update_is_for_the_oracle_authority_only() {
    let mut store = market();
    let before = store.clone();
    assert_eq!(update_oracle(&mut store, &s("admin"), 300, s(MINT), 9), Err(ContractError::Unauthorized {}));
    assert_eq!(store, before);
}

#[test]
fn oracle_update_checks_the_sender_before_the_identifier() {
    let mut store = market();
    assert_eq!(
        update_oracle(&mut store, &s("admin"), 300, s("abc/song1"), 9),
        Err(ContractError::Unauthorized {})
    );
    assert_eq!(
        update_oracle(&mut store, &s("oracle"), 300, s("abc/song1"), 9),
        Err(ContractError::InvalidDenom {})
    );
}

#[test]
fn oracle_update_needs_an_oracle() {
    let mut store = platform();
    assert_eq!(
        update_oracle(&mut store, &s("oracle"), 300, s(MINT), 9),
        Err(ContractError::NotFound { kind: RecordKind::ViewershipOracle })
    );
}

#[test]
fn oracle_update_needs_a_platform() {
    let mut store = Store::new();
    assert_eq!(
        update_oracle(&mut store, &s("oracle"), 300, s(MINT), 9),
        Err(ContractError::NotFound { kind: RecordKind::Config })
    );
}

#[test]
fn purchase_of_two_units_at_five_views() {
    let mut store = market();
    let receipt = purchase_token(&mut store, &s("buyer"), &inj(2_000_001_000), s(MINT), 2).unwrap();
    assert_eq!(receipt.mint, MINT);
    assert_eq!(receipt.amount_tokens, 2);
    assert_eq!(receipt.buyer, "buyer");
    assert_eq!(receipt.quote.unit_price, 1_000_000_500);
    assert_eq!(receipt.quote.total_cost, 2_000_001_000);
    assert_eq!(receipt.quote.platform_fee, 50_000_025);
    assert_eq!(receipt.quote.vault_amount, 1_950_000_975);
    assert_eq!(receipt.platform_transfer, Transfer { to_address: s("wallet"), amount: 50_000_025 });
    assert_eq!(receipt.vault_transfer, Transfer { to_address: s("inj1iabc_song1"), amount: 1_950_000_975 });
    assert!(!receipt.liquidity_notice);
    assert_eq!(store.token_vaults.get(&s(MINT)).unwrap().total_collected, 1_950_000_975);
}

#[test]
fn purchase_changes_nothing_but_the_vault_total() {
    let mut store = market();
    let mut expected = store.clone();
    purchase_token(&mut store, &s("buyer"), &inj(2_000_001_000), s(MINT), 2).unwrap();
    let mut vault = expected.token_vaults.get(&s(MINT)).unwrap().clone();
    vault.total_collected = 1_950_000_975;
    expected.token_vaults.put(s(MINT), vault);
    assert_eq!(store, expected);
}

#[test]
fn purchase_keeps_payment_beyond_the_cost() {
    let mut store = market();
    let receipt = purchase_token(&mut store, &s("buyer"), &inj(9_000_000_000), s(MINT), 2).unwrap();
    assert_eq!(receipt.platform_transfer.amount + receipt.vault_transfer.amount, 2_000_001_000);
    assert_eq!(store.token_vaults.get(&s(MINT)).unwrap().total_collected, 1_950_000_975);
}

#[test]
fn purchase_totals_add_up_over_purchases() {
    let mut store = market();
    purchase_token(&mut store, &s("buyer"), &inj(2_000_001_000), s(MINT), 2).unwrap();
    purchase_token(&mut store, &s("buyer2"), &inj(1_000_000_500), s(MINT), 1).unwrap();
    // one unit: fee 25_000_012 (rounded down), vault 975_000_488
    assert_eq!(store.token_vaults.get(&s(MINT)).unwrap().total_collected, 1_950_000_975 + 975_000_488);
}

#[test]
fn purchase_of_nothing_is_refused() {
    let mut store = market();
    let before = store.clone();
    assert_eq!(
        purchase_token(&mut store, &s("buyer"), &inj(2_000_001_000), s(MINT), 0),
        Err(ContractError::InvalidAmount {})
    );
    assert_eq!(store, before);
}

#[test]
fn purchase_checks_the_quantity_before_the_identifier() {
    let mut store = market();
    assert_eq!(
        purchase_token(&mut store, &s("buyer"), &inj(1), s("abc/song1"), 0),
        Err(ContractError::InvalidAmount {})
    );
    assert_eq!(
        purchase_token(&mut store, &s("buyer"), &inj(1), s("abc/song1"), 1),
        Err(ContractError::InvalidDenom {})
    );
}

#[test]
fn purchase_needs_an_oracle() {
    let mut store = platform();
    assert_eq!(
        purchase_token(&mut store, &s("buyer"), &inj(1), s(MINT), 1),
        Err(ContractError::NotFound { kind: RecordKind::ViewershipOracle })
    );
}

#[test]
fn purchase_needs_a_vault() {
    let mut store = platform();
    let oracle = ViewershipOracle {
        mint: s(MINT),
        view_count: 0,
        last_updated: 0,
        price_params: PriceParameters { k: 1, m: 100 },
    };
    store.viewership_oracles.put(s(MINT), oracle);
    assert_eq!(
        purchase_token(&mut store, &s("buyer"), &inj(1), s(MINT), 1),
        Err(ContractError::NotFound { kind: RecordKind::TokenVault })
    );
}

#[test]
fn purchase_needs_a_platform() {
    let mut store = Store::new();
    assert_eq!(initialize_token_oracle(&mut store, &s("creator"), 100, s(MINT)), Ok(()));
    assert_eq!(
        purchase_token(&mut store, &s("buyer"), &inj(1), s(MINT), 1),
        Err(ContractError::NotFound { kind: RecordKind::Config })
    );
}

#[test]
fn purchase_needs_a_vault_that_is_set_up() {
    let mut store = platform();
    assert_eq!(initialize_token_oracle(&mut store, &s("creator"), 100, s(MINT)), Ok(()));
    let before = store.clone();
    assert_eq!(
        purchase_token(&mut store, &s("buyer"), &inj(5_000_000_000), s(MINT), 1),
        Err(ContractError::VaultNotConfigured {})
    );
    assert_eq!(store, before);
}

#[test]
fn purchase_below_the_cost_is_refused() {
    let mut store = market();
    let before = store.clone();
    assert_eq!(
        purchase_token(&mut store, &s("buyer"), &inj(2_000_000_999), s(MINT), 2),
        Err(ContractError::InsufficientFunds {})
    );
    assert_eq!(store, before);
    assert_eq!(store.token_vaults.get(&s(MINT)).unwrap().total_collected, 0);
}

#[test]
fn purchase_without_funds_is_refused() {
    let mut store = market();
    assert_eq!(
        purchase_token(&mut store, &s("buyer"), &vec![], s(MINT), 1),
        Err(ContractError::InsufficientFunds {})
    );
    let other = vec![Coin { denom: s("usdt"), amount: u128::MAX }];
    assert_eq!(purchase_token(&mut store, &s("buyer"), &other, s(MINT), 1), Err(ContractError::InsufficientFunds {}));
}

#[test]
fn purchase_is_paid_by_the_sum_of_the_funds() {
    let mut store = market();
    let funds = vec![
        Coin { denom: s("inj"), amount: 1_000_000_000 },
        Coin { denom: s("usdt"), amount: 5 },
        Coin { denom: s("inj"), amount: 500 },
    ];
    assert!(purchase_token(&mut store, &s("buyer"), &funds, s(MINT), 1).is_ok());
}

#[test]
fn purchase_cost_overflow_is_reported() {
    let mut store = market();
    let before = store.clone();
    assert_eq!(
        purchase_token(&mut store, &s("buyer"), &inj(u128::MAX), s(MINT), u128::MAX),
        Err(ContractError::SupplyOverflow {})
    );
    assert_eq!(store, before);
}

#[test]
fn purchase_total_overflow_is_reported() {
    let mut store = market();
    let mut vault = store.token_vaults.get(&s(MINT)).unwrap().clone();
    vault.total_collected = u128::MAX - 1_950_000_974;
    store.token_vaults.put(s(MINT), vault);
    let before = store.clone();
    assert_eq!(
        purchase_token(&mut store, &s("buyer"), &inj(2_000_001_000), s(MINT), 2),
        Err(ContractError::SupplyOverflow {})
    );
    assert_eq!(store, before);
}

#[test]
fn purchase_total_may_reach_the_limit() {
    let mut store = market();
    let mut vault = store.token_vaults.get(&s(MINT)).unwrap().clone();
    vault.total_collected = u128::MAX - 1_950_000_975;
    store.token_vaults.put(s(MINT), vault);
    assert!(purchase_token(&mut store, &s("buyer"), &inj(2_000_001_000), s(MINT), 2).is_ok());
    assert_eq!(store.token_vaults.get(&s(MINT)).unwrap().total_collected, u128::MAX);
}

#[test]
fn purchase_gives_notice_at_the_threshold_when_a_pool_is_known() {
    let mut store = market();
    let mut vault = store.token_vaults.get(&s(MINT)).unwrap().clone();
    vault.dex_pool = Some(s("pool"));
    vault.total_collected = 10_000_000_000 - 1_950_000_975 - 1;
    store.token_vaults.put(s(MINT), vault);
    let receipt = purchase_token(&mut store, &s("buyer"), &inj(2_000_001_000), s(MINT), 2).unwrap();
    assert!(!receipt.liquidity_notice);
    let receipt = purchase_token(&mut store, &s("buyer"), &inj(2_000_001_000), s(MINT), 2).unwrap();
    assert!(receipt.liquidity_notice);
}

#[test]
fn purchase_gives_notice_exactly_at_the_threshold() {
    let mut store = market();
    let mut vault = store.token_vaults.get(&s(MINT)).unwrap().clone();
    vault.dex_pool = Some(s("pool"));
    vault.total_collected = 10_000_000_000 - 1_950_000_975;
    store.token_vaults.put(s(MINT), vault);
    let receipt = purchase_token(&mut store, &s("buyer"), &inj(2_000_001_000), s(MINT), 2).unwrap();
    assert!(receipt.liquidity_notice);
}

#[test]
fn purchase_gives_no_notice_without_a_pool() {
    let mut store = market();
    let mut vault = store.token_vaults.get(&s(MINT)).unwrap().clone();
    vault.total_collected = 20_000_000_000;
    store.token_vaults.put(s(MINT), vault);
    let receipt = purchase_token(&mut store, &s("buyer"), &inj(2_000_001_000), s(MINT), 2).unwrap();
    assert!(!receipt.liquidity_notice);
}

#[test]
fn vault_credit_and_threshold() {
    let store = market();
    let vault = store.token_vaults.get(&s(MINT)).unwrap();
    assert!(!vault.threshold_reached());
    let credited = vault.credit(10_000_000_000).unwrap();
    assert_eq!(credited.total_collected, 10_000_000_000);
    assert_eq!(credited.vault_account, vault.vault_account);
    assert_eq!(credited.inj_vault_wallet, vault.inj_vault_wallet);
    assert!(credited.threshold_reached());
    assert_eq!(credited.credit(u128::MAX), Err(ContractError::SupplyOverflow {}));
}

#[test]
fn mint_order_for_the_authority() {
    let mut store = market();
    assert_eq!(initialize_token_metadata(&mut store, 7, s("Song"), s("ipfs://x"), s(MINT)), Ok(()));
    let before = store.clone();
    assert_eq!(
        mint_token(&store, &s("admin"), s(MINT), s("fan"), 3),
        Ok(MintOrder { denom: s(MINT), amount: 3, recipient: s("fan") })
    );
    assert_eq!(store, before);
}

#[test]
fn mint_is_for_the_authority_only() {
    let mut store = market();
    assert_eq!(initialize_token_metadata(&mut store, 7, s("Song"), s("ipfs://x"), s(MINT)), Ok(()));
    assert_eq!(mint_token(&store, &s("oracle"), s(MINT), s("fan"), 3), Err(ContractError::Unauthorized {}));
}

#[test]
fn mint_of_nothing_is_refused() {
    let store = market();
    assert_eq!(mint_token(&store, &s("admin"), s(MINT), s("fan"), 0), Err(ContractError::InvalidAmount {}));
}

#[test]
fn mint_needs_an_accepted_identifier() {
    let store = market();
    assert_eq!(mint_token(&store, &s("admin"), s("abc/song1"), s("fan"), 1), Err(ContractError::InvalidDenom {}));
}

#[test]
fn mint_needs_metadata_and_vault() {
    let mut store = market();
    assert_eq!(
        mint_token(&store, &s("admin"), s(MINT), s("fan"), 1),
        Err(ContractError::NotFound { kind: RecordKind::TokenMetadata })
    );
    let other = "factory/abc/song2";
    assert_eq!(initialize_token_metadata(&mut store, 8, s("Two"), s("ipfs://y"), s(other)), Ok(()));
    assert_eq!(
        mint_token(&store, &s("admin"), s(other), s("fan"), 1),
        Err(ContractError::NotFound { kind: RecordKind::TokenVault })
    );
}

#[test]
fn mint_checks_the_records_before_the_sender() {
    let store = market();
    assert_eq!(
        mint_token(&store, &s("stranger"), s(MINT), s("fan"), 1),
        Err(ContractError::NotFound { kind: RecordKind::TokenMetadata })
    );
}

#[test]
fn transfer_notification_is_recorded() {
    let msg = Cw20ReceiveMsg { sender: s("fan"), amount: 12, msg: vec![1, 2, 3] };
    assert_eq!(
        receive_cw20(&s("token_contract"), msg),
        Ok(TransferNotice { sender: s("fan"), amount: 12, from_contract: s("token_contract") })
    );
}

#[test]
fn execute_dispatches_every_command() {
    let mut store = platform();
    let admin = s("admin");
    let oracle = s("oracle");
    let none: Vec<Coin> = vec![];
    let msg = ExecuteMsg::InitializeTokenMetadata { id: 7, name: s("Song"), music_uri: s("ipfs://x"), mint: s(MINT) };
    assert_eq!(execute(&mut store, &admin, 10, &none, msg), Ok(Response::Done));
    let msg = ExecuteMsg::InitializeTokenOracle { mint: s(MINT) };
    assert_eq!(execute(&mut store, &s("creator"), 20, &none, msg), Ok(Response::Done));
    let msg = ExecuteMsg::SetupVaultAccount { mint: s(MINT) };
    assert_eq!(execute(&mut store, &admin, 30, &none, msg), Ok(Response::Done));
    let msg = ExecuteMsg::UpdateOracle { mint: s(MINT), new_view_count: 5 };
    assert_eq!(execute(&mut store, &oracle, 40, &none, msg), Ok(Response::Done));
    assert_eq!(store.viewership_oracles.get(&s(MINT)).unwrap().last_updated, 40);
    let msg = ExecuteMsg::PurchaseToken { mint: s(MINT), amount_tokens: 2 };
    match execute(&mut store, &s("buyer"), 50, &inj(2_000_001_000), msg) {
        Ok(Response::Purchase(receipt)) => {
            assert_eq!(receipt.quote.total_cost, 2_000_001_000);
            assert_eq!(receipt.buyer, "buyer");
        }
        other => panic!("unexpected {:?}", other),
    }
    let msg = ExecuteMsg::MintToken { mint: s(MINT), recipient: s("fan"), amount: 3 };
    assert_eq!(
        execute(&mut store, &admin, 60, &none, msg),
        Ok(Response::Mint(MintOrder { denom: s(MINT), amount: 3, recipient: s("fan") }))
    );
    let msg = ExecuteMsg::UpdatePlatform { new_platform_wallet: s("wallet2"), new_oracle_authority: None };
    assert_eq!(execute(&mut store, &admin, 70, &none, msg), Ok(Response::Done));
    assert_eq!(store.config.clone().unwrap().platform_wallet, "wallet2");
    let msg = ExecuteMsg::Receive(Cw20ReceiveMsg { sender: s("fan"), amount: 12, msg: vec![] });
    assert_eq!(
        execute(&mut store, &s("token_contract"), 80, &none, msg),
        Ok(Response::Received(TransferNotice { sender: s("fan"), amount: 12, from_contract: s("token_contract") }))
    );
}

#[test]
fn execute_leaves_the_state_when_a_command_is_refused() {
    let mut store = market();
    let before = store.clone();
    let msg = ExecuteMsg::PurchaseToken { mint: s(MINT), amount_tokens: 2 };
    assert_eq!(execute(&mut store, &s("buyer"), 50, &inj(1), msg), Err(ContractError::InsufficientFunds {}));
    let msg = ExecuteMsg::UpdateOracle { mint: s(MINT), new_view_count: 1 };
    assert_eq!(execute(&mut store, &s("oracle"), 50, &vec![], msg), Err(ContractError::InvalidViewCount {}));
    let msg = ExecuteMsg::InitializeTokenOracle { mint: s(MINT) };
    assert_eq!(execute(&mut store, &s("x"), 50, &vec![], msg), Err(ContractError::OracleAlreadyExists {}));
    let msg = ExecuteMsg::SetupVaultAccount { mint: s(MINT) };
    assert_eq!(execute(&mut store, &s("x"), 50, &vec![], msg), Err(ContractError::VaultAlreadySetup {}));
    assert_eq!(store, before);
}

#[test]
fn identifier_without_prefix_is_refused_by_every_command() {
    let mut store = market();
    let bad = "abc/song1";
    let before = store.clone();
    assert_eq!(initialize_token_metadata(&mut store, 1, s("n"), s("u"), s(bad)), Err(ContractError::InvalidDenom {}));
    assert_eq!(initialize_token_oracle(&mut store, &s("c"), 1, s(bad)), Err(ContractError::InvalidDenom {}));
    assert_eq!(setup_vault_account(&mut store, s(bad)), Err(ContractError::InvalidDenom {}));
    assert_eq!(update_oracle(&mut store, &s("oracle"), 1, s(bad), 9), Err(ContractError::InvalidDenom {}));
    assert_eq!(purchase_token(&mut store, &s("b"), &inj(1), s(bad), 1), Err(ContractError::InvalidDenom {}));
    assert_eq!(mint_token(&store, &s("admin"), s(bad), s("fan"), 1), Err(ContractError::InvalidDenom {}));
    assert_eq!(store, before);
}

#[test]
fn error_messages() {
    assert_eq!(ContractError::Unauthorized {}.message(), "Unauthorized");
    assert_eq!(ContractError::NameTooLong {}.message(), "Name must be between 1 and 32 characters");
    assert_eq!(ContractError::UriTooLong {}.message(), "URI must be between 1 and 44 characters");
    assert_eq!(ContractError::InvalidAmount {}.message(), "Invalid amount provided");
    assert_eq!(ContractError::InsufficientFunds {}.message(), "Insufficient funds for purchase");
    assert_eq!(ContractError::SupplyOverflow {}.message(), "Supply calculation overflow");
    assert_eq!(ContractError::InvalidViewCount {}.message(), "Invalid view count provided");
    assert_eq!(ContractError::OracleAlreadyExists {}.message(), "Oracle already exists for this token");
    assert_eq!(ContractError::VaultAlreadySetup {}.message(), "Vault already setup for this token");
    assert_eq!(ContractError::InvalidDenom {}.message(), "Invalid denom format, must start with 'factory/'");
    assert_eq!(
        ContractError::VaultNotConfigured {}.message(),
        "Vault account not set up. Please call setup_vault_account first."
    );
    assert_eq!(ContractError::NotFound { kind: RecordKind::Config }.message(), "Config not found");
    assert_eq!(ContractError::NotFound { kind: RecordKind::TokenVault }.message(), "TokenVault not found");
}
