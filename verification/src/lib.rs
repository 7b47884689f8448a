//! A fixed-rate token sale vault.
//!
//! An authority configures an exchange rate between a payment asset and a
//! fungible token; buyers exchange payment for tokens at that rate, subject
//! to a per-purchase cap; the authority can later withdraw the collected
//! payment. The modules here hold the accounting and authorization core:
//! rate-based conversion arithmetic, purchase-limit enforcement, vault
//! balance bookkeeping, and authority-gated fund movement. The ledger
//! substrate that stores accounts and executes transfers is an external
//! service; callers hand its balances in as plain values and apply the
//! returned updates atomically.

pub mod accounts;
pub mod conversion;
pub mod deployment;
pub mod errors;

pub use accounts::AccountId;
pub use conversion::{payment_to_tokens, tokens_to_payment, TOKEN_SCALE};
pub use deployment::{Deployment, Initialize, ProgramState, Purchase, SetRate, WithdrawSol};
pub use errors::ErrorCode;
