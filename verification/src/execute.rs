//! The commands: each validates first and changes the state only when every
//! check has passed.

mod initialize_token_metadata;
mod initialize_token_oracle;
mod mint_token;
mod purchase_token;
mod receive_cw20;
mod setup_vault_account;
mod update_oracle;
mod update_platform;

pub use initialize_token_oracle::{
    fresh_oracle, fresh_vault, initialize_token_oracle, left_by, lemma_oracle_created_once,
    spec_initialize_token_oracle, DEFAULT_K, DEFAULT_M, LIQUIDITY_THRESHOLD,
};
pub use purchase_token::{
    lemma_purchase_conserves, lemma_underpaid_purchase_fails, lemma_underpaid_purchase_refused, purchase_token,
    spec_purchase_token,
};
pub use setup_vault_account::{
    address_fragments, lemma_assets_get_own_addresses, lemma_vault_set_up_once, setup_vault_account,
    spec_setup_vault_account,
};
pub use update_oracle::{
    lemma_lower_count_refused, lemma_report_idempotent, lemma_report_keeps_price_up, spec_update_oracle,
    update_oracle,
};
pub use initialize_token_metadata::{
    initialize_token_metadata, lemma_metadata_set_once, spec_initialize_token_metadata, MAX_NAME_LEN,
    MAX_URI_LEN,
};
pub use mint_token::{mint_token, spec_mint_token};
pub use receive_cw20::receive_cw20;
pub use update_platform::{spec_update_platform, update_platform};
