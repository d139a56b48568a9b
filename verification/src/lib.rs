//! Verified core of a wallet: output preparation, option conversion,
//! mana allotment merging, account syncing decisions and address generation.

pub mod bytes;
pub mod hex;
pub mod decimal;
pub mod error;
pub mod ids;
pub mod output_options;
pub mod transaction_options;
pub mod prepare_output;
pub mod preparation;
pub mod allot_mana;
pub mod sync;
pub mod sync_outputs;
pub mod address_generation;
pub mod message_handler;
