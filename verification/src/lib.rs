//! A custodial balance ledger for locked tokens.
//!
//! A depositor moves tokens from a source holding into a vault that only the
//! program controls, and a per-depositor record counts everything that was
//! locked this way. The token transfer itself is the platform's: this crate
//! names the transfer to ask for and decides, from the platform's answer, what
//! happens to the vault and to the record. Either both change by the locked
//! amount or neither changes at all.

pub mod account;
pub mod address;
pub mod error;
pub mod history;
pub mod ledger;
pub mod lock;

pub use account::{Account, TokenAccount, Transfer};
pub use address::{ledger_address, vault_address, Address, LEDGER_SEED, VAULT_SEED};
pub use error::{LockError, TransferError};
pub use history::Deposit;
pub use ledger::LockedTokens;
pub use lock::{begin_lock, initialize_lock, InitializeLock};
