//! Identifiers of clients and of transactions.

use vstd::prelude::*;

verus! {

/// Identifier of a client account: any 16-bit number.
#[derive(Debug, Clone, Copy, PartialEq, Eq, Hash, Structural)]
pub struct ClientId(pub u16);

/// Identifier of a transaction: any 32-bit number.
///
/// The engine accepts each identifier for at most one deposit or withdrawal.
#[derive(Debug, Clone, Copy, PartialEq, Eq, Hash, Structural)]
pub struct TransactionId(pub u32);

/// The text that std writes for a number.
pub uninterp spec fn number_text(n: int) -> Seq<char>;

/// `format!` with `{}` on a `u32`. Taken on trust: the text depends on the
/// number alone.
#[verifier::external_body]
fn write_number(n: u32) -> (r: String)
    ensures
        r@ == number_text(n as int),
{
    format!("{}", n)
}

impl ClientId {
    /// The number that identifies the client.
    pub fn value(&self) -> (r: u16)
        ensures
            r == self.0,
    {
        self.0
    }

    /// The identifier as it is shown: its number.
    pub fn to_text(&self) -> (r: String)
        ensures
            r@ == number_text(self.0 as int),
    {
        write_number(self.0 as u32)
    }
}

impl TransactionId {
    /// The number that identifies the transaction.
    pub fn value(&self) -> (r: u32)
        ensures
            r == self.0,
    {
        self.0
    }

    /// The identifier as it is shown: its number.
    pub fn to_text(&self) -> (r: String)
        ensures
            r@ == number_text(self.0 as int),
    {
        write_number(self.0)
    }
}

} // verus!
