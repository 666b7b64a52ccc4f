//! The failures an operation can report.

use vstd::prelude::*;

verus! {

/// Which stored record a lookup was for.
#[derive(Clone, Copy, Debug, PartialEq, Eq, Structural)]
pub enum RecordKind {
    Config,
    TokenMetadata,
    ViewershipOracle,
    TokenVault,
}

/// Every failure is reported to the caller as one of these; an operation that
/// fails has changed nothing.
#[derive(Clone, Copy, Debug, PartialEq, Eq, Structural)]
pub enum ContractError {
    /// A record the operation needs is not stored.
    NotFound { kind: RecordKind },
    Unauthorized {},
    NameTooLong {},
    UriTooLong {},
    InvalidAmount {},
    InsufficientFunds {},
    SupplyOverflow {},
    InvalidViewCount {},
    OracleAlreadyExists {},
    VaultAlreadySetup {},
    InvalidDenom {},
    /// A purchase was attempted before the asset's vault was set up.
    VaultNotConfigured {},
}

impl ContractError {
    /// The text shown to a user for this failure.
    pub open spec fn message_text(self) -> Seq<char> {
        match self {
            ContractError::NotFound { kind: RecordKind::Config } => "Config not found"@,
            ContractError::NotFound { kind: RecordKind::TokenMetadata } => "TokenMetadata not found"@,
            ContractError::NotFound { kind: RecordKind::ViewershipOracle } => "ViewershipOracle not found"@,
            ContractError::NotFound { kind: RecordKind::TokenVault } => "TokenVault not found"@,
            ContractError::Unauthorized {} => "Unauthorized"@,
            ContractError::NameTooLong {} => "Name must be between 1 and 32 characters"@,
            ContractError::UriTooLong {} => "URI must be between 1 and 44 characters"@,
            ContractError::InvalidAmount {} => "Invalid amount provided"@,
            ContractError::InsufficientFunds {} => "Insufficient funds for purchase"@,
            ContractError::SupplyOverflow {} => "Supply calculation overflow"@,
            ContractError::InvalidViewCount {} => "Invalid view count provided"@,
            ContractError::OracleAlreadyExists {} => "Oracle already exists for this token"@,
            ContractError::VaultAlreadySetup {} => "Vault already setup for this token"@,
            ContractError::InvalidDenom {} => "Invalid denom format, must start with 'factory/'"@,
            ContractError::VaultNotConfigured {} =>
                "Vault account not set up. Please call setup_vault_account first."@,
        }
    }

    /// The text shown to a user for this failure.
    pub fn message(&self) -> (text: &'static str)
        ensures
            text@ == self.message_text(),
    {
        match self {
            ContractError::NotFound { kind: RecordKind::Config } => "Config not found",
            ContractError::NotFound { kind: RecordKind::TokenMetadata } => "TokenMetadata not found",
            ContractError::NotFound { kind: RecordKind::ViewershipOracle } => "ViewershipOracle not found",
            ContractError::NotFound { kind: RecordKind::TokenVault } => "TokenVault not found",
            ContractError::Unauthorized {} => "Unauthorized",
            ContractError::NameTooLong {} => "Name must be between 1 and 32 characters",
            ContractError::UriTooLong {} => "URI must be between 1 and 44 characters",
            ContractError::InvalidAmount {} => "Invalid amount provided",
            ContractError::InsufficientFunds {} => "Insufficient funds for purchase",
            ContractError::SupplyOverflow {} => "Supply calculation overflow",
            ContractError::InvalidViewCount {} => "Invalid view count provided",
            ContractError::OracleAlreadyExists {} => "Oracle already exists for this token",
            ContractError::VaultAlreadySetup {} => "Vault already setup for this token",
            ContractError::InvalidDenom {} => "Invalid denom format, must start with 'factory/'",
            ContractError::VaultNotConfigured {} =>
                "Vault account not set up. Please call setup_vault_account first.",
        }
    }
}

} // verus!
