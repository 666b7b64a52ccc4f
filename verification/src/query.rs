//! The queries: they read the state and never change it.

mod get_platform_config;
mod get_token_metadata;
mod get_token_price;
mod get_vault_balance;

pub use get_platform_config::{get_platform_config, spec_get_platform_config};
pub use get_token_metadata::{get_token_metadata, spec_get_token_metadata};
pub use get_token_price::{get_token_price, spec_get_token_price};
pub use get_vault_balance::{get_vault_balance, spec_get_vault_balance};
