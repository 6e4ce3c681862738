//! The engine: the accounts by client, and the record of the identifiers
//! that deposits and withdrawals have used.
//!
//! A deposit or withdrawal first claims its identifier. One whose identifier
//! is taken is refused as a duplicate before any account sees it; a claim
//! stays even where the account then refuses the transaction. A deposit or
//! withdrawal for an unknown client opens the client's account; a dispute,
//! resolve or chargeback for an unknown client is refused.

use crate::account::{Account, AccountSnapshot, AccountState};
use crate::amount::Amount;
use crate::base::ClientId;
use crate::error::TransactionError;
use crate::store::{
    accounts_clients,
    accounts_insert,
    accounts_new,
    accounts_remove,
    accounts_snapshot,
    kept,
};
use crate::transaction::{lowercase, TransactionType};
use crate::transaction_queue::TransactionQueue;
use dashmap::DashMap;
use vstd::prelude::*;

verus! {

/// An engine as the contracts see it: the accounts by client, and the
/// identifiers that deposits and withdrawals have claimed.
pub struct EngineState {
    pub accounts: Map<u16, AccountState>,
    pub claimed: Set<u32>,
}

/// What became of a record that was handed to the engine.
#[derive(Debug, Clone, Copy, PartialEq, Eq)]
pub enum RecordOutcome {
    /// The record stands for no transaction; the engine did not see it.
    Skipped,
    /// The engine processed the transaction, with this result.
    Processed(Result<(), TransactionError>),
    /// The transaction would take a balance out of range.
    OutOfRange,
}

/// The engine.
pub struct Engine {
    accounts: DashMap<u16, Account>,
    transactions: TransactionQueue,
}

impl EngineState {
    /// Every account is well-formed and stands under its own client, and
    /// the identifier of every deposit on record is claimed.
    pub open spec fn wf(self) -> bool {
        &&& forall|c: u16| #[trigger]
            self.accounts.contains_key(c) ==> self.accounts[c].wf() && self.accounts[c].client
                == ClientId(c)
        &&& forall|c: u16, tx: u32|
            self.accounts.contains_key(c) && #[trigger] self.accounts[c].deposits.contains_key(tx)
                ==> self.claimed.contains(tx)
    }

    /// An engine without accounts or claims.
    pub open spec fn empty() -> EngineState {
        EngineState { accounts: Map::empty(), claimed: Set::empty() }
    }

    /// The client's account, where there is none a new one.
    pub open spec fn target(self, client: ClientId) -> AccountState {
        if self.accounts.contains_key(client.0) {
            self.accounts[client.0]
        } else {
            AccountState::fresh(client)
        }
    }

    /// The transaction gets as far as an account: a deposit or withdrawal
    /// whose identifier is free, or another transaction for a known client.
    pub open spec fn reaches_account(self, t: TransactionType) -> bool {
        if t.spec_is_monetary() {
            !self.claimed.contains(t.spec_id().0)
        } else {
            self.accounts.contains_key(t.spec_client_id().0)
        }
    }

    /// Whether the engine accepts the transaction, and the error with which
    /// it refuses it.
    pub open spec fn outcome(self, t: TransactionType) -> Result<(), TransactionError> {
        if self.reaches_account(t) {
            self.target(t.spec_client_id()).outcome(t)
        } else if t.spec_is_monetary() {
            Err(TransactionError::DuplicateTransaction)
        } else {
            Err(TransactionError::TransactionNotFound)
        }
    }

    /// The claims after the transaction: a deposit or withdrawal claims its
    /// identifier, accepted or not.
    pub open spec fn claims_after(self, t: TransactionType) -> Set<u32> {
        if t.spec_is_monetary() {
            self.claimed.insert(t.spec_id().0)
        } else {
            self.claimed
        }
    }

    /// The engine after the transaction. The account that the transaction
    /// reaches takes its step; every other account stays as it is.
    pub open spec fn next(self, t: TransactionType) -> EngineState {
        EngineState {
            accounts: if self.reaches_account(t) {
                self.accounts.insert(
                    t.spec_client_id().0,
                    self.target(t.spec_client_id()).step(t),
                )
            } else {
                self.accounts
            },
            claimed: self.claims_after(t),
        }
    }

    /// The balances that the transaction would give to the account that it
    /// reaches can be computed and are not negative.
    pub open spec fn in_range(self, t: TransactionType) -> bool {
        self.reaches_account(t) ==> self.target(t.spec_client_id()).in_range(t)
    }

    /// The sums and differences that the transaction calls for in the account
    /// that it reaches are known to be exact.
    pub open spec fn exact(self, t: TransactionType) -> bool {
        self.reaches_account(t) ==> self.target(t.spec_client_id()).exact(t)
    }

    /// The engine after a transaction that would take a balance out of
    /// range: a deposit or withdrawal has claimed its identifier, and the
    /// accounts are as they were.
    pub open spec fn after_claim(self, t: TransactionType) -> EngineState {
        EngineState { accounts: self.accounts, claimed: self.claims_after(t) }
    }

    /// What becomes of a record, given the transaction that it stands for.
    pub open spec fn record_outcome(self, t: Option<TransactionType>) -> RecordOutcome {
        match t {
            None => RecordOutcome::Skipped,
            Some(t) => if self.in_range(t) {
                RecordOutcome::Processed(self.outcome(t))
            } else {
                RecordOutcome::OutOfRange
            },
        }
    }

    /// The engine after a record, given the transaction that it stands for.
    pub open spec fn after_record(self, t: Option<TransactionType>) -> EngineState {
        match t {
            None => self,
            Some(t) => if self.in_range(t) {
                self.next(t)
            } else {
                self.after_claim(t)
            },
        }
    }

    /// The engine after each of the transactions in turn.
    pub open spec fn run(self, events: Seq<TransactionType>) -> EngineState
        decreases events.len(),
    {
        if events.len() == 0 {
            self
        } else {
            self.run(events.drop_last()).next(events.last())
        }
    }
}

impl Default for Engine {
    /// An engine without accounts or claims.
    fn default() -> (r: Engine)
        ensures
            r.wf(),
            r@ == EngineState::empty(),
    {
        Engine::new()
    }
}

impl View for Engine {
    type V = EngineState;

    closed spec fn view(&self) -> EngineState {
        EngineState {
            accounts: kept(self.accounts),
            claimed: self.transactions.entries().dom(),
        }
    }
}

impl Engine {
    /// The record of claims is well-formed.
    pub closed spec fn record_wf(&self) -> bool {
        self.transactions.wf()
    }

    /// The accounts and the record of claims are well-formed. In
    /// particular no balance of any account is negative.
    pub open spec fn wf(&self) -> bool {
        &&& self@.wf()
        &&& self.record_wf()
    }

    /// An engine without accounts or claims.
    pub fn new() -> (r: Engine)
        ensures
            r.wf(),
            r@ == EngineState::empty(),
    {
        let r = Engine { accounts: accounts_new(), transactions: TransactionQueue::new() };
        assert(r@.accounts =~= Map::empty());
        assert(r@.claimed =~= Set::empty());
        r
    }

    /// Whether the balances that the transaction would give to the client's
    /// account can be computed and are not negative. The engine is left as it
    /// was.
    fn admits(&mut self, t: &TransactionType) -> (r: bool)
        requires
            old(self).wf(),
            t.wf(),
        ensures
            r == old(self)@.target(t.spec_client_id()).in_range(*t),
            old(self)@.target(t.spec_client_id()).exact(*t) ==> r,
            final(self)@ == old(self)@,
            final(self).wf(),
            final(self).transactions == old(self).transactions,
    {
        let client = t.client_id();
        match accounts_remove(&mut self.accounts, client.0) {
            None => {
                assert(self@.accounts =~= old(self)@.accounts);
                let mut account = Account::new(client);
                account.admits(t)
            },
            Some(mut account) => {
                assert(old(self)@.accounts.contains_key(client.0));
                let r = account.admits(t);
                accounts_insert(&mut self.accounts, client.0, account);
                assert(self@.accounts =~= old(self)@.accounts);
                r
            },
        }
    }

    /// Processes a transaction.
    ///
    /// The result is what [`EngineState::outcome`] gives, and the engine
    /// becomes what [`EngineState::next`] gives: a deposit or withdrawal
    /// claims its identifier or is refused as a duplicate; the account that
    /// the transaction reaches applies it.
    pub fn process(&mut self, transaction: TransactionType) -> (r: Result<(), TransactionError>)
        requires
            old(self).wf(),
            transaction.wf(),
            old(self)@.in_range(transaction),
        ensures
            final(self).wf(),
            r == old(self)@.outcome(transaction),
            final(self)@ == old(self)@.next(transaction),
            r is Ok && old(self)@.exact(transaction) ==> final(self)@.accounts[transaction.spec_client_id().0]
                == old(self)@.target(transaction.spec_client_id()).exact_next(transaction),
    {
        let client = transaction.client_id();
        let monetary = transaction.is_monetary();
        if monetary {
            let claim = self.transactions.push(transaction);
            if claim.is_err() {
                assert(self@.accounts =~= old(self)@.next(transaction).accounts);
                assert(self@.claimed =~= old(self)@.next(transaction).claimed);
                return claim;
            }
        }
        let mut account = match accounts_remove(&mut self.accounts, client.0) {
            Some(account) => account,
            None => {
                if !monetary {
                    assert(self@.accounts =~= old(self)@.next(transaction).accounts);
                    assert(self@.claimed =~= old(self)@.next(transaction).claimed);
                    return Err(TransactionError::TransactionNotFound);
                }
                Account::new(client)
            },
        };
        let r = account.add_transaction(transaction);
        accounts_insert(&mut self.accounts, client.0, account);
        proof {
            assert(self@.accounts =~= old(self)@.next(transaction).accounts);
            assert(self@.claimed =~= old(self)@.next(transaction).claimed);
        }
        r
    }

    /// Processes a transaction where the balances that it gives can be
    /// computed and are not negative, and returns what [`Engine::process`]
    /// returns. Otherwise returns `None`: the accounts stay as they were, and a
    /// deposit or withdrawal has claimed its identifier.
    pub fn try_process(&mut self, transaction: TransactionType) -> (r: Option<
        Result<(), TransactionError>,
    >)
        requires
            old(self).wf(),
            transaction.wf(),
        ensures
            final(self).wf(),
            r is Some <==> old(self)@.in_range(transaction),
            old(self)@.exact(transaction) ==> r is Some,
            r is Some ==> r.unwrap() == old(self)@.outcome(transaction) && final(self)@ == old(self)@.next(transaction),
            r is None ==> final(self)@ == old(self)@.after_claim(transaction),
    {
        let reaches = if transaction.is_monetary() {
            !self.transactions.contains(transaction.id())
        } else {
            true
        };
        if !reaches || self.admits(&transaction) {
            Some(self.process(transaction))
        } else {
            if transaction.is_monetary() {
                let _ = self.transactions.push(transaction);
            }
            assert(self@.accounts =~= old(self)@.accounts);
            assert(self@.claimed =~= old(self)@.claims_after(transaction));
            None
        }
    }

    /// Processes the transaction that a record of four fields stands for
    /// (see [`TransactionType::of_record`]), and says what became of it. A
    /// record that stands for none is skipped and changes nothing.
    pub fn process_record(&mut self, kind: &str, client: u16, tx: u32, amount: Option<Amount>) -> (r:
        RecordOutcome)
        requires
            old(self).wf(),
            amount is Some ==> amount.unwrap().wf(),
        ensures
            final(self).wf(),
            r == old(self)@.record_outcome(
                TransactionType::of_record(lowercase(kind@), client, tx, amount),
            ),
            final(self)@ == old(self)@.after_record(
                TransactionType::of_record(lowercase(kind@), client, tx, amount),
            ),
            match TransactionType::of_record(lowercase(kind@), client, tx, amount) {
                Some(t) => old(self)@.exact(t) ==> r is Processed,
                None => r is Skipped,
            },
    {
        match TransactionType::from_record(kind, client, tx, amount) {
            None => RecordOutcome::Skipped,
            Some(transaction) => match self.try_process(transaction) {
                Some(result) => RecordOutcome::Processed(result),
                None => RecordOutcome::OutOfRange,
            },
        }
    }

    /// The balances and the lock of the client's account, or `None` where the
    /// client has no account.
    pub fn get_account(&self, client_id: &ClientId) -> (r: Option<AccountSnapshot>)
        ensures
            r is Some <==> self@.accounts.contains_key(client_id.0),
            r is Some ==> r.unwrap() == self@.accounts[client_id.0].snapshot(),
            self.wf() && r is Some ==> r.unwrap().wf() && r.unwrap().client == *client_id,
    {
        accounts_snapshot(&self.accounts, client_id.0)
    }

    /// One snapshot for each account, in no particular order.
    pub fn accounts(&self) -> (r: Vec<AccountSnapshot>)
        requires
            self.wf(),
        ensures
            forall|i: int|
                0 <= i < r.len() ==> self@.accounts.contains_key(#[trigger] r[i].client.0) && r[i]
                    == self@.accounts[r[i].client.0].snapshot() && r[i].wf(),
            forall|i: int, j: int|
                0 <= i < r.len() && 0 <= j < r.len() && i != j ==> r[i].client != r[j].client,
            forall|c: u16| #[trigger]
                self@.accounts.contains_key(c) ==> exists|i: int|
                    0 <= i < r.len() && r[i].client == ClientId(c),
    {
        let clients = accounts_clients(&self.accounts);
        let mut out: Vec<AccountSnapshot> = Vec::new();
        let mut k: usize = 0;
        while k < clients.len()
            invariant
                self.wf(),
                k <= clients.len(),
                out.len() == k,
                clients@.no_duplicates(),
                forall|c: u16| clients@.contains(c) <==> kept(self.accounts).contains_key(c),
                forall|i: int|
                    0 <= i < k ==> (#[trigger] out[i]).client == ClientId(clients[i]) && out[i]
                        == self@.accounts[clients[i]].snapshot() && out[i].wf(),
            decreases clients.len() - k,
        {
            let c = clients[k];
            assert(clients@.contains(c));
            assert(self@.accounts.contains_key(c));
            let snapshot = accounts_snapshot(&self.accounts, c).unwrap();
            out.push(snapshot);
            k = k + 1;
        }
        proof {
            assert forall|i: int| 0 <= i < out.len() implies self@.accounts.contains_key(
                #[trigger] out[i].client.0,
            ) && out[i] == self@.accounts[out[i].client.0].snapshot() && out[i].wf() by {
                assert(clients@.contains(clients[i]));
            }
            assert forall|c: u16| #[trigger] self@.accounts.contains_key(c) implies exists|i: int|
                0 <= i < out.len() && out[i].client == ClientId(c) by {
                assert(clients@.contains(c));
                let i = choose|i: int| 0 <= i < clients.len() && clients[i] == c;
                assert(out[i].client == ClientId(c));
            }
        }
        out
    }
}

} // verus!
