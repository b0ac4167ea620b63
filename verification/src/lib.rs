//! A custodial balance ledger: users deposit fungible tokens into a
//! program-controlled vault, a per-user internal balance tracks what each
//! owner is owed, and withdrawals back to the user's wallet are authorized
//! by a program-derived signer rather than a private key.
//!
//! The central invariant the design protects: the sum of all internal ledger
//! balances never exceeds the amount actually custodied in the vault, and a
//! ledger entry is mutated only after the corresponding transfer succeeded.

pub mod accounting;
pub mod authority;
pub mod custody;
pub mod encoding;
pub mod errors;
pub mod ledger;
pub mod orchestrator;
pub mod pubkey;
pub mod token;

pub use authority::TradingBot;
pub use custody::Custody;
pub use errors::ErrorCode;
pub use ledger::LedgerStore;
pub use ledger::apply_deposit;
pub use ledger::apply_withdraw;
pub use ledger::UserAccount;
pub use orchestrator::deposit;
pub use orchestrator::initialize;
pub use orchestrator::withdraw;
pub use orchestrator::withdraw_allowed;
pub use orchestrator::Deposit;
pub use orchestrator::Initialize;
pub use orchestrator::Withdraw;
pub use pubkey::Pubkey;
pub use token::TokenAccount;
