pub mod account_resolver;
pub mod accounts;
pub mod address;
pub mod amm_dex;
pub mod curve;
pub mod dynamic_fee;
pub mod error;
pub mod extra_account_meta;
pub mod hook_accounts;
pub mod hook_data;
pub mod instructions;
pub mod mint_data;
pub mod state;
pub mod token_utils;
