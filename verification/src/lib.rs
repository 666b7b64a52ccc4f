//! Pricing and settlement core of a content-token platform: a viewership
//! oracle per asset, a bonding-curve price, a custody vault per asset, and the
//! purchase settlement that splits a payment between platform and vault.

mod amount;
pub mod auth;
pub mod contract;
pub mod denom;
pub mod error;
pub mod execute;
pub mod invariants;
pub mod msg;
pub mod query;
pub mod state;
pub mod table;
pub mod text;
pub mod utils;
