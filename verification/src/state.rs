//! The records the platform keeps, each with its mathematical view.

use vstd::prelude::*;
use crate::amount::checked_add;
use crate::error::ContractError;
use crate::table::Table;

verus! {

/// The platform's three roles. Addresses are held as text.
#[derive(Clone, Debug, PartialEq, Eq)]
pub struct Config {
    pub platform_wallet: String,
    pub oracle_authority: String,
    pub authority: String,
}

pub struct ConfigView {
    pub platform_wallet: Seq<char>,
    pub oracle_authority: Seq<char>,
    pub authority: Seq<char>,
}

impl View for Config {
    type V = ConfigView;

    open spec fn view(&self) -> ConfigView {
        ConfigView {
            platform_wallet: self.platform_wallet@,
            oracle_authority: self.oracle_authority@,
            authority: self.authority@,
        }
    }
}

/// What was registered about an asset.
#[derive(Clone, Debug, PartialEq, Eq)]
pub struct TokenMetadata {
    pub name: String,
    pub music_uri: String,
    pub id: u64,
    pub mint: String,
}

pub struct TokenMetadataView {
    pub name: Seq<char>,
    pub music_uri: Seq<char>,
    pub id: u64,
    pub mint: Seq<char>,
}

impl View for TokenMetadata {
    type V = TokenMetadataView;

    open spec fn view(&self) -> TokenMetadataView {
        TokenMetadataView {
            name: self.name@,
            music_uri: self.music_uri@,
            id: self.id,
            mint: self.mint@,
        }
    }
}

/// The two constants of the bonding curve.
#[derive(Clone, Copy, Debug, PartialEq, Eq, Structural)]
pub struct PriceParameters {
    pub k: u64,
    pub m: u64,
}

/// The reported viewership of one asset.
#[derive(Clone, Debug, PartialEq, Eq)]
pub struct ViewershipOracle {
    pub mint: String,
    pub view_count: u64,
    pub last_updated: u64,
    pub price_params: PriceParameters,
}

pub struct ViewershipOracleView {
    pub mint: Seq<char>,
    pub view_count: u64,
    pub last_updated: u64,
    pub price_params: PriceParameters,
}

impl View for ViewershipOracle {
    type V = ViewershipOracleView;

    open spec fn view(&self) -> ViewershipOracleView {
        ViewershipOracleView {
            mint: self.mint@,
            view_count: self.view_count,
            last_updated: self.last_updated,
            price_params: self.price_params,
        }
    }
}

/// The custody record of one asset.
#[derive(Clone, Debug, PartialEq, Eq)]
pub struct TokenVault {
    pub mint: String,
    pub vault_account: Option<String>,
    pub inj_vault_wallet: String,
    pub liquidity_threshold: u128,
    pub total_collected: u128,
    pub dex_pool: Option<String>,
}

pub struct TokenVaultView {
    pub mint: Seq<char>,
    pub vault_account: Option<Seq<char>>,
    pub inj_vault_wallet: Seq<char>,
    pub liquidity_threshold: u128,
    pub total_collected: u128,
    pub dex_pool: Option<Seq<char>>,
}

/// The view of an optional address.
pub open spec fn text_of(address: Option<String>) -> Option<Seq<char>> {
    match address {
        Some(a) => Some(a@),
        None => None,
    }
}

impl View for TokenVault {
    type V = TokenVaultView;

    open spec fn view(&self) -> TokenVaultView {
        TokenVaultView {
            mint: self.mint@,
            vault_account: text_of(self.vault_account),
            inj_vault_wallet: self.inj_vault_wallet@,
            liquidity_threshold: self.liquidity_threshold,
            total_collected: self.total_collected,
            dex_pool: text_of(self.dex_pool),
        }
    }
}

/// A copy of an optional address.
pub fn copy_address(address: &Option<String>) -> (copy: Option<String>)
    ensures
        text_of(copy) == text_of(*address),
{
    match address {
        Some(a) => Some(a.clone()),
        None => None,
    }
}

impl TokenVaultView {
    /// The vault after `amount` was added to what it has collected.
    pub open spec fn credited(self, amount: u128) -> TokenVaultView {
        TokenVaultView { total_collected: (self.total_collected + amount) as u128, ..self }
    }

    /// The vault has collected at least its liquidity threshold.
    pub open spec fn threshold_reached(self) -> bool {
        self.total_collected >= self.liquidity_threshold
    }

    /// The vault once its addresses are set.
    pub open spec fn configured(self, vault_account: Seq<char>, wallet: Seq<char>) -> TokenVaultView {
        TokenVaultView { vault_account: Some(vault_account), inj_vault_wallet: wallet, ..self }
    }
}

impl TokenVault {
    /// This vault with `amount` added to what it has collected; fails where
    /// the sum does not fit in 128 bits.
    pub fn credit(&self, amount: u128) -> (result: Result<TokenVault, ContractError>)
        ensures
            match result {
                Ok(vault) => self.total_collected + amount <= u128::MAX && vault@ == self@.credited(amount),
                Err(e) => e == (ContractError::SupplyOverflow {}) && self.total_collected + amount > u128::MAX,
            },
    {
        match checked_add(self.total_collected, amount) {
            Some(total_collected) => Ok(
                TokenVault {
                    mint: self.mint.clone(),
                    vault_account: copy_address(&self.vault_account),
                    inj_vault_wallet: self.inj_vault_wallet.clone(),
                    liquidity_threshold: self.liquidity_threshold,
                    total_collected,
                    dex_pool: copy_address(&self.dex_pool),
                },
            ),
            None => Err(ContractError::SupplyOverflow {}),
        }
    }

    /// Whether the vault has collected at least its liquidity threshold.
    pub fn threshold_reached(&self) -> (reached: bool)
        ensures
            reached == self@.threshold_reached(),
    {
        self.total_collected >= self.liquidity_threshold
    }
}

/// The persisted state: the platform configuration and three tables keyed by
/// asset identifier. Records under different identifiers are independent.
#[derive(Clone, Debug, PartialEq, Eq)]
pub struct Store {
    pub config: Option<Config>,
    pub token_metadata: Table<TokenMetadata>,
    pub viewership_oracles: Table<ViewershipOracle>,
    pub token_vaults: Table<TokenVault>,
}

pub struct StoreView {
    pub config: Option<ConfigView>,
    pub token_metadata: Map<Seq<char>, TokenMetadataView>,
    pub viewership_oracles: Map<Seq<char>, ViewershipOracleView>,
    pub token_vaults: Map<Seq<char>, TokenVaultView>,
}

impl View for Store {
    type V = StoreView;

    open spec fn view(&self) -> StoreView {
        StoreView {
            config: match self.config {
                Some(c) => Some(c@),
                None => None,
            },
            token_metadata: self.token_metadata@,
            viewership_oracles: self.viewership_oracles@,
            token_vaults: self.token_vaults@,
        }
    }
}

impl Store {
    /// A state in which nothing is stored.
    pub fn new() -> (store: Store)
        ensures
            store@.config is None,
            store@.token_metadata == Map::<Seq<char>, TokenMetadataView>::empty(),
            store@.viewership_oracles == Map::<Seq<char>, ViewershipOracleView>::empty(),
            store@.token_vaults == Map::<Seq<char>, TokenVaultView>::empty(),
            store@.consistent(),
    {
        Store {
            config: None,
            token_metadata: Table::new(),
            viewership_oracles: Table::new(),
            token_vaults: Table::new(),
        }
    }
}

} // verus!
