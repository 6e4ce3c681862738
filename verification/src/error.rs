//! The ways in which a transaction can be refused.

use vstd::prelude::*;

verus! {

/// Why a transaction was refused.
#[derive(Debug, Clone, Copy, PartialEq, Eq, Structural)]
pub enum TransactionError {
    /// A deposit or withdrawal came without an amount.
    MissingAmount,
    /// The amount is zero or negative.
    InvalidAmount,
    /// The balance that the transaction draws on is smaller than the amount.
    InsufficientFunds,
    /// No deposit, or no client, is known under the identifier.
    TransactionNotFound,
    /// The transaction names another client than the account's.
    ClientMismatch,
    /// The deposit has been disputed before.
    AlreadyDisputed,
    /// The deposit is not under dispute.
    NotDisputed,
    /// Only deposits can be disputed.
    NotDisputable,
    /// A deposit or withdrawal has used the identifier before.
    DuplicateTransaction,
    /// The account is locked.
    AccountLocked,
}

impl TransactionError {
    /// The text that describes the error.
    pub open spec fn message_text(self) -> Seq<char> {
        match self {
            TransactionError::MissingAmount => "missing amount for deposit/withdrawal"@,
            TransactionError::InvalidAmount => "invalid amount (must be positive)"@,
            TransactionError::InsufficientFunds => "insufficient available funds"@,
            TransactionError::TransactionNotFound => "transaction not found"@,
            TransactionError::ClientMismatch => "client does not own this transaction"@,
            TransactionError::AlreadyDisputed => "transaction already under dispute"@,
            TransactionError::NotDisputed => "transaction not under dispute"@,
            TransactionError::NotDisputable => "only deposits can be disputed"@,
            TransactionError::DuplicateTransaction => "duplicate transaction ID"@,
            TransactionError::AccountLocked => "account is locked"@,
        }
    }

    /// Describes the error in words.
    pub fn message(&self) -> (r: String)
        ensures
            r@ == self.message_text(),
    {
        match self {
            TransactionError::MissingAmount => "missing amount for deposit/withdrawal".to_owned(),
            TransactionError::InvalidAmount => "invalid amount (must be positive)".to_owned(),
            TransactionError::InsufficientFunds => "insufficient available funds".to_owned(),
            TransactionError::TransactionNotFound => "transaction not found".to_owned(),
            TransactionError::ClientMismatch => "client does not own this transaction".to_owned(),
            TransactionError::AlreadyDisputed => "transaction already under dispute".to_owned(),
            TransactionError::NotDisputed => "transaction not under dispute".to_owned(),
            TransactionError::NotDisputable => "only deposits can be disputed".to_owned(),
            TransactionError::DuplicateTransaction => "duplicate transaction ID".to_owned(),
            TransactionError::AccountLocked => "account is locked".to_owned(),
        }
    }
}

} // verus!
