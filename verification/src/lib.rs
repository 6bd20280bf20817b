//! Escrow coordinator for atomic two-party asset swaps on an account-based
//! ledger: deterministic authority derivation, a fixed-width slot registry
//! with its binary codec, a request decoder, and the four-operation state
//! machine (initialize, deposit, execute, reclaim).

pub mod error;
pub mod instruction_parser;
pub mod processor;
pub mod pubkey;
pub mod state;
pub mod token_account;
pub mod utils;
