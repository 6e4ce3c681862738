//! A payment ledger engine.
//!
//! The engine takes deposits, withdrawals and the three steps of a dispute
//! (dispute, resolve, chargeback), keeps one account per client and refuses a
//! transaction identifier that a deposit or withdrawal has used before.
//! The contracts of the functions are proved by Verus. What is taken on trust
//! of the outside crates stands in the contracts of the private functions
//! marked `external_body`, each beside the code that calls it.

pub mod account;
pub mod amount;
pub mod base;
pub mod engine;
pub mod error;
pub mod lemmas;
pub mod store;
pub mod transaction;
pub mod transaction_queue;

pub use account::{Account, AccountData, AccountRow, AccountSnapshot, AccountState, DepositRecord};
pub use amount::Amount;
pub use base::{ClientId, TransactionId};
pub use engine::{Engine, EngineState, RecordOutcome};
pub use error::TransactionError;
pub use transaction::{TransactionStatus, TransactionType};
pub use transaction_queue::TransactionQueue;
