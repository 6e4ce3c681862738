//! The five kinds of transaction and the states of a deposit.

use crate::amount::Amount;
use crate::base::{ClientId, TransactionId};
use vstd::prelude::*;

verus! {

/// Where a deposit stands: `Applied`, then `Inflight` once disputed, then
/// `Resolved` or `Voided`.
#[derive(Debug, Clone, Copy, PartialEq, Eq, Structural)]
pub enum TransactionStatus {
    Applied,
    Inflight,
    Resolved,
    Voided,
}

/// A transaction as it reaches the engine.
#[derive(Debug, Clone, Copy, PartialEq)]
pub enum TransactionType {
    Deposit { client_id: ClientId, transaction_id: TransactionId, amount: Amount, status: TransactionStatus },
    Withdrawal { client_id: ClientId, transaction_id: TransactionId, amount: Amount },
    Dispute { client_id: ClientId, transaction_id: TransactionId },
    Resolve { client_id: ClientId, transaction_id: TransactionId },
    Chargeback { client_id: ClientId, transaction_id: TransactionId },
}

/// The lower-case form that std gives for a text.
pub uninterp spec fn lowercase(text: Seq<char>) -> Seq<char>;

/// `str::to_lowercase`. Taken on trust: the result depends on the text alone.
#[verifier::external_body]
fn to_lowercase(text: &str) -> (r: String)
    ensures
        r@ == lowercase(text@),
{
    text.to_lowercase()
}

impl TransactionType {
    /// The transaction that a record of four fields stands for, given the
    /// lower-case form of its kind: a deposit or withdrawal where the record
    /// has an amount, a dispute, resolve or chargeback with or without one,
    /// and `None` for any other kind.
    pub open spec fn of_record(
        kind: Seq<char>,
        client: u16,
        tx: u32,
        amount: Option<Amount>,
    ) -> Option<TransactionType> {
        let client_id = ClientId(client);
        let transaction_id = TransactionId(tx);
        if kind == "deposit"@ {
            match amount {
                Some(amount) => Some(
                    TransactionType::Deposit {
                        client_id,
                        transaction_id,
                        amount,
                        status: TransactionStatus::Applied,
                    },
                ),
                None => None,
            }
        } else if kind == "withdrawal"@ {
            match amount {
                Some(amount) => Some(
                    TransactionType::Withdrawal { client_id, transaction_id, amount },
                ),
                None => None,
            }
        } else if kind == "dispute"@ {
            Some(TransactionType::Dispute { client_id, transaction_id })
        } else if kind == "resolve"@ {
            Some(TransactionType::Resolve { client_id, transaction_id })
        } else if kind == "chargeback"@ {
            Some(TransactionType::Chargeback { client_id, transaction_id })
        } else {
            None
        }
    }

    /// The transaction that a record stands for, given its kind in lower
    /// case; `None` for an unknown kind and for a deposit or withdrawal
    /// without an amount.
    pub fn from_lowercase_record(kind: &String, client: u16, tx: u32, amount: Option<Amount>) -> (r:
        Option<TransactionType>)
        ensures
            r == Self::of_record(kind@, client, tx, amount),
    {
        let client_id = ClientId(client);
        let transaction_id = TransactionId(tx);
        if *kind == "deposit".to_owned() {
            match amount {
                Some(amount) => Some(
                    TransactionType::Deposit {
                        client_id,
                        transaction_id,
                        amount,
                        status: TransactionStatus::Applied,
                    },
                ),
                None => None,
            }
        } else if *kind == "withdrawal".to_owned() {
            match amount {
                Some(amount) => Some(
                    TransactionType::Withdrawal { client_id, transaction_id, amount },
                ),
                None => None,
            }
        } else if *kind == "dispute".to_owned() {
            Some(TransactionType::Dispute { client_id, transaction_id })
        } else if *kind == "resolve".to_owned() {
            Some(TransactionType::Resolve { client_id, transaction_id })
        } else if *kind == "chargeback".to_owned() {
            Some(TransactionType::Chargeback { client_id, transaction_id })
        } else {
            None
        }
    }

    /// The transaction that a record stands for. The kind is read without
    /// regard to case.
    pub fn from_record(kind: &str, client: u16, tx: u32, amount: Option<Amount>) -> (r: Option<
        TransactionType,
    >)
        ensures
            r == Self::of_record(lowercase(kind@), client, tx, amount),
    {
        let lowered = to_lowercase(kind);
        Self::from_lowercase_record(&lowered, client, tx, amount)
    }

    /// The identifier that the transaction carries.
    pub open spec fn spec_id(self) -> TransactionId {
        match self {
            TransactionType::Deposit { transaction_id, .. } => transaction_id,
            TransactionType::Withdrawal { transaction_id, .. } => transaction_id,
            TransactionType::Dispute { transaction_id, .. } => transaction_id,
            TransactionType::Resolve { transaction_id, .. } => transaction_id,
            TransactionType::Chargeback { transaction_id, .. } => transaction_id,
        }
    }

    /// The client that the transaction names.
    pub open spec fn spec_client_id(self) -> ClientId {
        match self {
            TransactionType::Deposit { client_id, .. } => client_id,
            TransactionType::Withdrawal { client_id, .. } => client_id,
            TransactionType::Dispute { client_id, .. } => client_id,
            TransactionType::Resolve { client_id, .. } => client_id,
            TransactionType::Chargeback { client_id, .. } => client_id,
        }
    }

    /// Deposits and withdrawals move money; the other three kinds refer to
    /// an earlier deposit.
    pub open spec fn spec_is_monetary(self) -> bool {
        self is Deposit || self is Withdrawal
    }

    /// The amount of a deposit or withdrawal is in range.
    pub open spec fn wf(self) -> bool {
        match self {
            TransactionType::Deposit { amount, .. } => amount.wf(),
            TransactionType::Withdrawal { amount, .. } => amount.wf(),
            _ => true,
        }
    }

    /// The identifier that the transaction carries.
    pub fn id(&self) -> (r: TransactionId)
        ensures
            r == self.spec_id(),
    {
        match self {
            TransactionType::Deposit { transaction_id, .. } => *transaction_id,
            TransactionType::Withdrawal { transaction_id, .. } => *transaction_id,
            TransactionType::Dispute { transaction_id, .. } => *transaction_id,
            TransactionType::Resolve { transaction_id, .. } => *transaction_id,
            TransactionType::Chargeback { transaction_id, .. } => *transaction_id,
        }
    }

    /// The client that the transaction names.
    pub fn client_id(&self) -> (r: ClientId)
        ensures
            r == self.spec_client_id(),
    {
        match self {
            TransactionType::Deposit { client_id, .. } => *client_id,
            TransactionType::Withdrawal { client_id, .. } => *client_id,
            TransactionType::Dispute { client_id, .. } => *client_id,
            TransactionType::Resolve { client_id, .. } => *client_id,
            TransactionType::Chargeback { client_id, .. } => *client_id,
        }
    }

    /// The amount of a deposit or withdrawal; zero for the other kinds.
    pub fn amount(&self) -> (r: Amount)
        ensures
            r == (match *self {
                TransactionType::Deposit { amount, .. } => amount,
                TransactionType::Withdrawal { amount, .. } => amount,
                _ => (Amount { mantissa: 0, scale: 0 }),
            }),
    {
        match self {
            TransactionType::Deposit { amount, .. } => *amount,
            TransactionType::Withdrawal { amount, .. } => *amount,
            _ => Amount::zero(),
        }
    }

    /// The status that a deposit carries; `Applied` for the other kinds.
    pub fn status(&self) -> (r: TransactionStatus)
        ensures
            r == (match *self {
                TransactionType::Deposit { status, .. } => status,
                _ => TransactionStatus::Applied,
            }),
    {
        match self {
            TransactionType::Deposit { status, .. } => *status,
            _ => TransactionStatus::Applied,
        }
    }

    /// Whether the transaction is a deposit or a withdrawal.
    pub fn is_monetary(&self) -> (r: bool)
        ensures
            r == self.spec_is_monetary(),
    {
        match self {
            TransactionType::Deposit { .. } => true,
            TransactionType::Withdrawal { .. } => true,
            _ => false,
        }
    }
}

} // verus!
