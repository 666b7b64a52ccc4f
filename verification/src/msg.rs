//! The commands and queries the platform accepts, and what it answers.

use vstd::prelude::*;
use crate::state::{ConfigView, TokenMetadataView};
use crate::utils::PurchaseQuote;

verus! {

/// An amount of one denomination attached to a command.
#[derive(Clone, Debug, PartialEq, Eq)]
pub struct Coin {
    pub denom: String,
    pub amount: u128,
}

/// A notification that tokens were transferred to the platform.
#[derive(Clone, Debug, PartialEq, Eq)]
pub struct Cw20ReceiveMsg {
    pub sender: String,
    pub amount: u128,
    pub msg: Vec<u8>,
}

#[derive(Clone, Debug, PartialEq, Eq)]
pub struct InstantiateMsg {
    pub platform_wallet: String,
    pub oracle_authority: String,
}

#[derive(Clone, Debug, PartialEq, Eq)]
pub enum ExecuteMsg {
    UpdatePlatform { new_platform_wallet: String, new_oracle_authority: Option<String> },
    InitializeTokenMetadata { id: u64, name: String, music_uri: String, mint: String },
    InitializeTokenOracle { mint: String },
    SetupVaultAccount { mint: String },
    UpdateOracle { mint: String, new_view_count: u64 },
    PurchaseToken { mint: String, amount_tokens: u128 },
    MintToken { mint: String, recipient: String, amount: u128 },
    Receive(Cw20ReceiveMsg),
}

#[derive(Clone, Debug, PartialEq, Eq)]
pub enum QueryMsg {
    GetPlatformConfig {},
    GetTokenMetadata { mint: String },
    GetTokenPrice { mint: String },
    GetVaultBalance { mint: String },
}

#[derive(Clone, Debug, PartialEq, Eq)]
pub struct PlatformConfigResponse {
    pub platform_wallet: String,
    pub oracle_authority: String,
    pub authority: String,
}

#[derive(Clone, Debug, PartialEq, Eq)]
pub struct TokenMetadataResponse {
    pub name: String,
    pub music_uri: String,
    pub id: u64,
    pub mint: String,
}

impl View for PlatformConfigResponse {
    type V = ConfigView;

    open spec fn view(&self) -> ConfigView {
        ConfigView {
            platform_wallet: self.platform_wallet@,
            oracle_authority: self.oracle_authority@,
            authority: self.authority@,
        }
    }
}

impl View for TokenMetadataResponse {
    type V = TokenMetadataView;

    open spec fn view(&self) -> TokenMetadataView {
        TokenMetadataView {
            name: self.name@,
            music_uri: self.music_uri@,
            id: self.id,
            mint: self.mint@,
        }
    }
}

#[derive(Clone, Copy, Debug, PartialEq, Eq, Structural)]
pub struct TokenPriceResponse {
    pub price: u128,
}

#[derive(Clone, Copy, Debug, PartialEq, Eq, Structural)]
pub struct VaultBalanceResponse {
    pub balance: u128,
}

/// An instruction to pay `amount` of the payment denomination to `to_address`.
/// The platform emits it; a settlement layer carries it out afterwards.
#[derive(Clone, Debug, PartialEq, Eq)]
pub struct Transfer {
    pub to_address: String,
    pub amount: u128,
}

pub struct TransferView {
    pub to_address: Seq<char>,
    pub amount: u128,
}

impl View for Transfer {
    type V = TransferView;

    open spec fn view(&self) -> TransferView {
        TransferView { to_address: self.to_address@, amount: self.amount }
    }
}

/// What a settled purchase hands back: the two transfers and the record of
/// the purchase.
#[derive(Clone, Debug, PartialEq, Eq)]
pub struct PurchaseReceipt {
    pub mint: String,
    pub amount_tokens: u128,
    pub buyer: String,
    pub quote: PurchaseQuote,
    pub platform_transfer: Transfer,
    pub vault_transfer: Transfer,
    /// The vault has reached its liquidity threshold and a pool is known.
    pub liquidity_notice: bool,
}

pub struct PurchaseReceiptView {
    pub mint: Seq<char>,
    pub amount_tokens: u128,
    pub buyer: Seq<char>,
    pub quote: PurchaseQuote,
    pub platform_transfer: TransferView,
    pub vault_transfer: TransferView,
    pub liquidity_notice: bool,
}

impl View for PurchaseReceipt {
    type V = PurchaseReceiptView;

    open spec fn view(&self) -> PurchaseReceiptView {
        PurchaseReceiptView {
            mint: self.mint@,
            amount_tokens: self.amount_tokens,
            buyer: self.buyer@,
            quote: self.quote,
            platform_transfer: self.platform_transfer@,
            vault_transfer: self.vault_transfer@,
            liquidity_notice: self.liquidity_notice,
        }
    }
}

/// An instruction for the issuance mechanism to mint `amount` of `denom` to
/// `recipient`.
#[derive(Clone, Debug, PartialEq, Eq)]
pub struct MintOrder {
    pub denom: String,
    pub amount: u128,
    pub recipient: String,
}

pub struct MintOrderView {
    pub denom: Seq<char>,
    pub amount: u128,
    pub recipient: Seq<char>,
}

impl View for MintOrder {
    type V = MintOrderView;

    open spec fn view(&self) -> MintOrderView {
        MintOrderView { denom: self.denom@, amount: self.amount, recipient: self.recipient@ }
    }
}

/// The record of a transfer notification.
#[derive(Clone, Debug, PartialEq, Eq)]
pub struct TransferNotice {
    pub sender: String,
    pub amount: u128,
    pub from_contract: String,
}

pub struct TransferNoticeView {
    pub sender: Seq<char>,
    pub amount: u128,
    pub from_contract: Seq<char>,
}

impl View for TransferNotice {
    type V = TransferNoticeView;

    open spec fn view(&self) -> TransferNoticeView {
        TransferNoticeView {
            sender: self.sender@,
            amount: self.amount,
            from_contract: self.from_contract@,
        }
    }
}

/// What a command hands back when it succeeds.
#[derive(Clone, Debug, PartialEq, Eq)]
pub enum Response {
    /// The state was updated; nothing is handed on.
    Done,
    Purchase(PurchaseReceipt),
    Mint(MintOrder),
    Received(TransferNotice),
}

pub enum ResponseView {
    Done,
    Purchase(PurchaseReceiptView),
    Mint(MintOrderView),
    Received(TransferNoticeView),
}

impl View for Response {
    type V = ResponseView;

    open spec fn view(&self) -> ResponseView {
        match self {
            Response::Done => ResponseView::Done,
            Response::Purchase(receipt) => ResponseView::Purchase(receipt@),
            Response::Mint(order) => ResponseView::Mint(order@),
            Response::Received(notice) => ResponseView::Received(notice@),
        }
    }
}

/// What a query answers.
#[derive(Clone, Debug, PartialEq, Eq)]
pub enum QueryResponse {
    PlatformConfig(PlatformConfigResponse),
    TokenMetadata(TokenMetadataResponse),
    TokenPrice(TokenPriceResponse),
    VaultBalance(VaultBalanceResponse),
}

pub enum QueryResponseView {
    PlatformConfig(ConfigView),
    TokenMetadata(TokenMetadataView),
    TokenPrice(TokenPriceResponse),
    VaultBalance(VaultBalanceResponse),
}

impl View for QueryResponse {
    type V = QueryResponseView;

    open spec fn view(&self) -> QueryResponseView {
        match self {
            QueryResponse::PlatformConfig(r) => QueryResponseView::PlatformConfig(r@),
            QueryResponse::TokenMetadata(r) => QueryResponseView::TokenMetadata(r@),
            QueryResponse::TokenPrice(r) => QueryResponseView::TokenPrice(*r),
            QueryResponse::VaultBalance(r) => QueryResponseView::VaultBalance(*r),
        }
    }
}

} // verus!
