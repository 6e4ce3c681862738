//! Client accounts: two balances, a lock, and the deposits that can still be
//! disputed.
//!
//! An account takes one transaction at a time. Whether it accepts the
//! transaction, and what the account is afterwards, are given by
//! [`AccountState::outcome`] and [`AccountState::next`]; a refused
//! transaction leaves the account as it was.

use crate::amount::{lemma_value_sign, Amount};
use crate::base::{ClientId, TransactionId};
use crate::error::TransactionError;
use crate::transaction::{TransactionStatus, TransactionType};
use parking_lot::{Mutex, RawMutex};
use std::collections::HashMap;
use vstd::prelude::*;

verus! {

broadcast use vstd::std_specs::hash::group_hash_axioms;

/// What an account remembers of a deposit: its amount and where it stands.
#[derive(Debug, Clone, Copy)]
pub struct DepositRecord {
    pub amount: Amount,
    pub status: TransactionStatus,
}

/// An account as the contracts see it.
pub struct AccountState {
    pub client: ClientId,
    pub available: Amount,
    pub held: Amount,
    pub locked: bool,
    pub deposits: Map<u32, DepositRecord>,
}

/// The balances and the lock of one account at one moment.
#[derive(Debug, Clone, Copy)]
pub struct AccountSnapshot {
    pub client: ClientId,
    pub available: Amount,
    pub held: Amount,
    pub locked: bool,
}

/// A snapshot as it is written out: the balances and their total, each
/// rounded to four fractional digits.
#[derive(Debug, Clone, Copy)]
pub struct AccountRow {
    pub client: u16,
    pub available: Amount,
    pub held: Amount,
    pub total: Amount,
    pub locked: bool,
}

/// What an account holds: the balances, the lock and the deposits.
#[derive(Debug)]
pub struct AccountData {
    client_id: ClientId,
    available: Amount,
    held: Amount,
    locked: bool,
    deposits: HashMap<u32, DepositRecord>,
}

/// A client's account: its data behind a mutex.
#[derive(Debug)]
pub struct Account {
    inner: Mutex<AccountData>,
}

/// The mutex of `lock_api`, which `parking_lot` builds its own on. Verus
/// sees nothing inside.
#[verifier::external_type_specification]
#[verifier::external_body]
#[verifier::reject_recursive_types(R)]
#[verifier::reject_recursive_types(T)]
pub struct ExMutex<R, T: ?Sized>(parking_lot::lock_api::Mutex<R, T>);

/// The lock of `parking_lot` inside its mutex.
#[verifier::external_type_specification]
#[verifier::external_body]
pub struct ExRawMutex(RawMutex);

/// The state of the data that a mutex guards.
pub uninterp spec fn guarded(m: Mutex<AccountData>) -> AccountState;

/// `Mutex::new`: a mutex that guards the data.
#[verifier::external_body]
fn guard_new(data: AccountData) -> (r: Mutex<AccountData>)
    ensures
        guarded(r) == data@,
{
    Mutex::new(data)
}

/// `Mutex::get_mut`: the guarded data, for a caller that holds the mutex
/// alone. What the caller leaves there is what the mutex guards afterwards.
#[verifier::external_body]
fn guard_get_mut(m: &mut Mutex<AccountData>) -> (r: &mut AccountData)
    ensures
        r@ == guarded(*old(m)),
        guarded(*final(m)) == final(r)@,
{
    m.get_mut()
}

/// `Mutex::lock`, keeping the balances and the lock flag of the guarded data,
/// all read under the one lock.
#[verifier::external_body]
fn guard_read(m: &Mutex<AccountData>) -> (r: AccountSnapshot)
    ensures
        r == guarded(*m).snapshot(),
{
    let data = m.lock();
    AccountSnapshot {
        client: data.client_id,
        available: data.available,
        held: data.held,
        locked: data.locked,
    }
}

impl AccountState {
    /// Both balances are in range and not negative, and every deposit on
    /// record has a positive amount in range.
    pub open spec fn wf(self) -> bool {
        &&& self.available.wf()
        &&& self.held.wf()
        &&& self.available.mantissa >= 0
        &&& self.held.mantissa >= 0
        &&& forall|tx: u32| #[trigger]
            self.deposits.contains_key(tx) ==> self.deposits[tx].amount.wf()
                && self.deposits[tx].amount.mantissa > 0
    }

    /// The state of an account that has seen no transaction.
    pub open spec fn fresh(client: ClientId) -> AccountState {
        AccountState {
            client,
            available: Amount { mantissa: 0, scale: 0 },
            held: Amount { mantissa: 0, scale: 0 },
            locked: false,
            deposits: Map::empty(),
        }
    }

    /// A new balance is usable: the arithmetic gave one, and it is not
    /// negative.
    pub open spec fn fits(balance: Option<Amount>) -> bool {
        balance is Some && balance.unwrap().mantissa >= 0
    }

    /// Whether the account takes `amount` in: the amount must be positive
    /// and the account not locked.
    pub open spec fn credit_outcome(self, amount: Amount) -> Result<(), TransactionError> {
        if amount.value() <= 0 {
            Err(TransactionError::InvalidAmount)
        } else if self.locked {
            Err(TransactionError::AccountLocked)
        } else {
            Ok(())
        }
    }

    /// Whether the account lets `amount` be drawn from the balance `source`:
    /// the amount must be positive, the account not locked, and the balance
    /// not smaller than the amount.
    pub open spec fn debit_outcome(self, source: Amount, amount: Amount) -> Result<
        (),
        TransactionError,
    > {
        if amount.value() <= 0 {
            Err(TransactionError::InvalidAmount)
        } else if self.locked {
            Err(TransactionError::AccountLocked)
        } else if source.value() < amount.value() {
            Err(TransactionError::InsufficientFunds)
        } else {
            Ok(())
        }
    }

    /// Whether the account accepts a reference to the deposit `tx` that needs
    /// the deposit in the state `needed` and draws its amount from `source`.
    pub open spec fn reference_outcome(
        self,
        tx: u32,
        needed: TransactionStatus,
        refusal: TransactionError,
        source: Amount,
    ) -> Result<(), TransactionError> {
        if !self.deposits.contains_key(tx) {
            Err(TransactionError::TransactionNotFound)
        } else if self.deposits[tx].status != needed {
            Err(refusal)
        } else {
            self.debit_outcome(source, self.deposits[tx].amount)
        }
    }

    /// Whether the account accepts the transaction, and the error with which
    /// it refuses it.
    pub open spec fn outcome(self, t: TransactionType) -> Result<(), TransactionError> {
        if t.spec_client_id() != self.client {
            Err(TransactionError::ClientMismatch)
        } else {
            match t {
                TransactionType::Deposit { amount, .. } => self.credit_outcome(amount),
                TransactionType::Withdrawal { amount, .. } => self.debit_outcome(
                    self.available,
                    amount,
                ),
                TransactionType::Dispute { transaction_id, .. } => self.reference_outcome(
                    transaction_id.0,
                    TransactionStatus::Applied,
                    TransactionError::AlreadyDisputed,
                    self.available,
                ),
                TransactionType::Resolve { transaction_id, .. } => self.reference_outcome(
                    transaction_id.0,
                    TransactionStatus::Inflight,
                    TransactionError::NotDisputed,
                    self.held,
                ),
                TransactionType::Chargeback { transaction_id, .. } => self.reference_outcome(
                    transaction_id.0,
                    TransactionStatus::Inflight,
                    TransactionError::NotDisputed,
                    self.held,
                ),
            }
        }
    }

    /// The deposit `tx` with a new status.
    pub open spec fn marked(self, tx: u32, status: TransactionStatus) -> Map<u32, DepositRecord> {
        self.deposits.insert(tx, DepositRecord { amount: self.deposits[tx].amount, status })
    }

    /// The account after a transaction that it accepts.
    pub open spec fn next(self, t: TransactionType) -> AccountState {
        match t {
            TransactionType::Deposit { transaction_id, amount, .. } => AccountState {
                available: Amount::sum(self.available, amount).unwrap(),
                deposits: self.deposits.insert(
                    transaction_id.0,
                    DepositRecord { amount, status: TransactionStatus::Applied },
                ),
                ..self
            },
            TransactionType::Withdrawal { amount, .. } => AccountState {
                available: Amount::difference(self.available, amount).unwrap(),
                ..self
            },
            TransactionType::Dispute { transaction_id, .. } => AccountState {
                available: Amount::difference(
                    self.available,
                    self.deposits[transaction_id.0].amount,
                ).unwrap(),
                held: Amount::sum(self.held, self.deposits[transaction_id.0].amount).unwrap(),
                deposits: self.marked(transaction_id.0, TransactionStatus::Inflight),
                ..self
            },
            TransactionType::Resolve { transaction_id, .. } => AccountState {
                held: Amount::difference(self.held, self.deposits[transaction_id.0].amount).unwrap(),
                available: Amount::sum(
                    self.available,
                    self.deposits[transaction_id.0].amount,
                ).unwrap(),
                deposits: self.marked(transaction_id.0, TransactionStatus::Resolved),
                ..self
            },
            TransactionType::Chargeback { transaction_id, .. } => AccountState {
                held: Amount::difference(self.held, self.deposits[transaction_id.0].amount).unwrap(),
                locked: true,
                deposits: self.marked(transaction_id.0, TransactionStatus::Voided),
                ..self
            },
        }
    }

    /// The balances that the transaction would give can be computed and are
    /// not negative. It holds of every transaction that the account refuses.
    pub open spec fn in_range(self, t: TransactionType) -> bool {
        self.outcome(t) is Ok ==> match t {
            TransactionType::Deposit { amount, .. } => Self::fits(
                Amount::sum(self.available, amount),
            ),
            TransactionType::Withdrawal { amount, .. } => Self::fits(
                Amount::difference(self.available, amount),
            ),
            TransactionType::Dispute { transaction_id, .. } => Self::fits(
                Amount::difference(self.available, self.deposits[transaction_id.0].amount),
            ) && Self::fits(Amount::sum(self.held, self.deposits[transaction_id.0].amount)),
            TransactionType::Resolve { transaction_id, .. } => Self::fits(
                Amount::difference(self.held, self.deposits[transaction_id.0].amount),
            ) && Self::fits(Amount::sum(self.available, self.deposits[transaction_id.0].amount)),
            TransactionType::Chargeback { transaction_id, .. } => Self::fits(
                Amount::difference(self.held, self.deposits[transaction_id.0].amount),
            ),
        }
    }

    /// The sums and differences that the transaction calls for are known to
    /// be exact (see [`Amount::adds_exactly`]).
    pub open spec fn exact(self, t: TransactionType) -> bool {
        match t {
            TransactionType::Deposit { amount, .. } => Amount::adds_exactly(self.available, amount),
            TransactionType::Withdrawal { amount, .. } => Amount::subtracts_exactly(
                self.available,
                amount,
            ),
            TransactionType::Dispute { transaction_id, .. } => Amount::subtracts_exactly(
                self.available,
                self.deposits[transaction_id.0].amount,
            ) && Amount::adds_exactly(self.held, self.deposits[transaction_id.0].amount),
            TransactionType::Resolve { transaction_id, .. } => Amount::subtracts_exactly(
                self.held,
                self.deposits[transaction_id.0].amount,
            ) && Amount::adds_exactly(self.available, self.deposits[transaction_id.0].amount),
            TransactionType::Chargeback { transaction_id, .. } => Amount::subtracts_exactly(
                self.held,
                self.deposits[transaction_id.0].amount,
            ),
        }
    }

    /// The account after a transaction that it accepts and whose arithmetic
    /// is known to be exact.
    pub open spec fn exact_next(self, t: TransactionType) -> AccountState {
        match t {
            TransactionType::Deposit { transaction_id, amount, .. } => AccountState {
                available: Amount::exact_sum(self.available, amount),
                deposits: self.deposits.insert(
                    transaction_id.0,
                    DepositRecord { amount, status: TransactionStatus::Applied },
                ),
                ..self
            },
            TransactionType::Withdrawal { amount, .. } => AccountState {
                available: Amount::exact_difference(self.available, amount),
                ..self
            },
            TransactionType::Dispute { transaction_id, .. } => AccountState {
                available: Amount::exact_difference(
                    self.available,
                    self.deposits[transaction_id.0].amount,
                ),
                held: Amount::exact_sum(self.held, self.deposits[transaction_id.0].amount),
                deposits: self.marked(transaction_id.0, TransactionStatus::Inflight),
                ..self
            },
            TransactionType::Resolve { transaction_id, .. } => AccountState {
                held: Amount::exact_difference(self.held, self.deposits[transaction_id.0].amount),
                available: Amount::exact_sum(self.available, self.deposits[transaction_id.0].amount),
                deposits: self.marked(transaction_id.0, TransactionStatus::Resolved),
                ..self
            },
            TransactionType::Chargeback { transaction_id, .. } => AccountState {
                held: Amount::exact_difference(self.held, self.deposits[transaction_id.0].amount),
                locked: true,
                deposits: self.marked(transaction_id.0, TransactionStatus::Voided),
                ..self
            },
        }
    }

    /// The account after each of the transactions in turn.
    pub open spec fn run(self, events: Seq<TransactionType>) -> AccountState
        decreases events.len(),
    {
        if events.len() == 0 {
            self
        } else {
            self.run(events.drop_last()).step(events.last())
        }
    }

    /// The balances and the lock of the account.
    pub open spec fn snapshot(self) -> AccountSnapshot {
        AccountSnapshot {
            client: self.client,
            available: self.available,
            held: self.held,
            locked: self.locked,
        }
    }

    /// The account after the transaction: the next state where the account
    /// accepts it, the same state where it refuses.
    pub open spec fn step(self, t: TransactionType) -> AccountState {
        if self.outcome(t) is Ok {
            self.next(t)
        } else {
            self
        }
    }
}

impl AccountSnapshot {
    /// The sum of the two balances, `None` where it is out of range.
    pub open spec fn spec_total(self) -> Option<Amount> {
        Amount::sum(self.available, self.held)
    }

    /// The row written for the snapshot, given its total.
    pub open spec fn spec_row(self, total: Amount) -> AccountRow {
        AccountRow {
            client: self.client.0,
            available: self.available.rounded(Account::DECIMAL_PRECISION),
            held: self.held.rounded(Account::DECIMAL_PRECISION),
            total: total.rounded(Account::DECIMAL_PRECISION),
            locked: self.locked,
        }
    }

    /// Both balances are in range and not negative.
    pub open spec fn wf(self) -> bool {
        &&& self.available.wf()
        &&& self.held.wf()
        &&& self.available.mantissa >= 0
        &&& self.held.mantissa >= 0
    }

    /// The client that the account belongs to.
    pub fn client_id(&self) -> (r: ClientId)
        ensures
            r == self.client,
    {
        self.client
    }

    /// The funds that the client can withdraw.
    pub fn available(&self) -> (r: Amount)
        ensures
            r == self.available,
    {
        self.available
    }

    /// The funds that are set aside for disputes.
    pub fn held(&self) -> (r: Amount)
        ensures
            r == self.held,
    {
        self.held
    }

    /// Whether the account is locked.
    pub fn locked(&self) -> (r: bool)
        ensures
            r == self.locked,
    {
        self.locked
    }

    /// The available and the held funds together, where their sum is in
    /// range.
    pub fn total(&self) -> (r: Amount)
        requires
            self.available.wf(),
            self.held.wf(),
            self.spec_total() is Some,
        ensures
            Some(r) == self.spec_total(),
            r.wf(),
            Amount::adds_exactly(self.available, self.held) ==> r == Amount::exact_sum(
                self.available,
                self.held,
            ) && r.value() == self.available.value() + self.held.value(),
            Amount::adds_exactly(self.available, self.held) && self.wf() ==> r.value() >= 0,
    {
        proof {
            lemma_value_sign(self.available);
            lemma_value_sign(self.held);
        }
        self.available.checked_add(self.held).unwrap()
    }

    /// The available and the held funds together, or `None` where their sum
    /// is out of range. A sum that is known to be exact is in range.
    pub fn try_total(&self) -> (r: Option<Amount>)
        requires
            self.available.wf(),
            self.held.wf(),
        ensures
            r == self.spec_total(),
            r is Some ==> r.unwrap().wf(),
            Amount::adds_exactly(self.available, self.held) ==> r == Some(
                Amount::exact_sum(self.available, self.held),
            ),
    {
        match self.available.checked_add(self.held) {
            Some(_) => Some(self.total()),
            None => None,
        }
    }

    /// The row to write out for the snapshot: the client's number, the two
    /// balances and their total, each rounded to four fractional digits, half
    /// to even, and the lock.
    pub fn row(&self) -> (r: AccountRow)
        requires
            self.available.wf(),
            self.held.wf(),
            self.spec_total() is Some,
        ensures
            r == self.spec_row(self.spec_total().unwrap()),
            r.available.wf() && r.held.wf() && r.total.wf(),
            Amount::adds_exactly(self.available, self.held) ==> r == self.spec_row(
                Amount::exact_sum(self.available, self.held),
            ),
    {
        let total = self.total();
        AccountRow {
            client: self.client.0,
            available: self.available.round_dp(Account::DECIMAL_PRECISION),
            held: self.held.round_dp(Account::DECIMAL_PRECISION),
            total: total.round_dp(Account::DECIMAL_PRECISION),
            locked: self.locked,
        }
    }

    /// The row to write out for the snapshot, or `None` where the total of
    /// the balances is out of range. A total that is known to be exact is in
    /// range.
    pub fn try_row(&self) -> (r: Option<AccountRow>)
        requires
            self.available.wf(),
            self.held.wf(),
        ensures
            r is Some <==> self.spec_total() is Some,
            r is Some ==> r.unwrap() == self.spec_row(self.spec_total().unwrap()),
            Amount::adds_exactly(self.available, self.held) ==> r == Some(
                self.spec_row(Amount::exact_sum(self.available, self.held)),
            ),
    {
        match self.available.checked_add(self.held) {
            Some(_) => Some(self.row()),
            None => None,
        }
    }
}

impl View for AccountData {
    type V = AccountState;

    closed spec fn view(&self) -> AccountState {
        AccountState {
            client: self.client_id,
            available: self.available,
            held: self.held,
            locked: self.locked,
            deposits: self.deposits@,
        }
    }
}

impl AccountData {
    /// The state is well-formed.
    pub open spec fn wf(&self) -> bool {
        self@.wf()
    }

    /// The data of an account with no funds and no deposits, not locked.
    pub fn new(client_id: ClientId) -> (r: AccountData)
        ensures
            r@ == AccountState::fresh(client_id),
            r.wf(),
    {
        let r = AccountData {
            client_id,
            available: Amount::zero(),
            held: Amount::zero(),
            locked: false,
            deposits: HashMap::new(),
        };
        assert(r@.deposits =~= Map::empty());
        r
    }

    /// The client that the account belongs to.
    pub fn client_id(&self) -> (r: ClientId)
        ensures
            r == self@.client,
    {
        self.client_id
    }

    /// The funds that the client can withdraw.
    pub fn available(&self) -> (r: Amount)
        ensures
            r == self@.available,
    {
        self.available
    }

    /// The funds that are set aside for disputes.
    pub fn held(&self) -> (r: Amount)
        ensures
            r == self@.held,
    {
        self.held
    }

    /// Whether the account is locked.
    pub fn locked(&self) -> (r: bool)
        ensures
            r == self@.locked,
    {
        self.locked
    }

    /// What is on record of the deposit `tx`, if the account holds it.
    pub fn deposit_record(&self, tx: TransactionId) -> (r: Option<DepositRecord>)
        ensures
            r is Some <==> self@.deposits.contains_key(tx.0),
            r is Some ==> r.unwrap() == self@.deposits[tx.0],
    {
        match self.deposits.get(&tx.0) {
            Some(record) => Some(*record),
            None => None,
        }
    }

    /// Whether the account takes `amount` in.
    fn decide_credit(&self, amount: Amount) -> (r: Result<(), TransactionError>)
        requires
            amount.wf(),
        ensures
            r == self@.credit_outcome(amount),
    {
        if !amount.is_positive() {
            Err(TransactionError::InvalidAmount)
        } else if self.locked {
            Err(TransactionError::AccountLocked)
        } else {
            Ok(())
        }
    }

    /// Whether the account lets `amount` be drawn from the available funds,
    /// or from the held funds.
    fn decide_debit(&self, from_available: bool, amount: Amount) -> (r: Result<
        (),
        TransactionError,
    >)
        requires
            self.wf(),
            amount.wf(),
        ensures
            r == self@.debit_outcome(
                if from_available {
                    self@.available
                } else {
                    self@.held
                },
                amount,
            ),
    {
        let source = if from_available {
            self.available
        } else {
            self.held
        };
        if !amount.is_positive() {
            Err(TransactionError::InvalidAmount)
        } else if self.locked {
            Err(TransactionError::AccountLocked)
        } else if source.less_than(&amount) {
            Err(TransactionError::InsufficientFunds)
        } else {
            Ok(())
        }
    }

    /// Adds `amount` to the available funds. Refused for an amount that is
    /// not positive, and on a locked account.
    pub fn deposit(&mut self, amount: Amount) -> (r: Result<(), TransactionError>)
        requires
            old(self).wf(),
            amount.wf(),
            old(self)@.credit_outcome(amount) is Ok ==> AccountState::fits(
                Amount::sum(old(self)@.available, amount),
            ),
        ensures
            r == old(self)@.credit_outcome(amount),
            r is Ok ==> final(self)@ == (AccountState {
                available: Amount::sum(old(self)@.available, amount).unwrap(),
                ..old(self)@
            }),
            r is Ok && Amount::adds_exactly(old(self)@.available, amount) ==> final(self)@.available
                == Amount::exact_sum(old(self)@.available, amount),
            r is Err ==> final(self)@ == old(self)@,
            final(self).wf(),
    {
        let decision = self.decide_credit(amount);
        if decision.is_err() {
            return decision;
        }
        self.available = self.available.checked_add(amount).unwrap();
        Ok(())
    }

    /// Takes `amount` from the available funds. Refused for an amount that is
    /// not positive, on a locked account, and where the available funds are
    /// smaller than the amount.
    pub fn withdraw(&mut self, amount: Amount) -> (r: Result<(), TransactionError>)
        requires
            old(self).wf(),
            amount.wf(),
            old(self)@.debit_outcome(old(self)@.available, amount) is Ok ==> AccountState::fits(
                Amount::difference(old(self)@.available, amount),
            ),
        ensures
            r == old(self)@.debit_outcome(old(self)@.available, amount),
            r is Ok ==> final(self)@ == (AccountState {
                available: Amount::difference(old(self)@.available, amount).unwrap(),
                ..old(self)@
            }),
            r is Ok && Amount::subtracts_exactly(old(self)@.available, amount) ==> final(self)@.available == Amount::exact_difference(old(self)@.available, amount),
            r is Err ==> final(self)@ == old(self)@,
            final(self).wf(),
    {
        let decision = self.decide_debit(true, amount);
        if decision.is_err() {
            return decision;
        }
        self.available = self.available.checked_sub(amount).unwrap();
        Ok(())
    }

    /// Moves `amount` from the available to the held funds. Refused as a
    /// withdrawal of the amount would be.
    pub fn hold_funds(&mut self, amount: Amount) -> (r: Result<(), TransactionError>)
        requires
            old(self).wf(),
            amount.wf(),
            old(self)@.debit_outcome(old(self)@.available, amount) is Ok ==> AccountState::fits(
                Amount::difference(old(self)@.available, amount),
            ) && AccountState::fits(Amount::sum(old(self)@.held, amount)),
        ensures
            r == old(self)@.debit_outcome(old(self)@.available, amount),
            r is Ok ==> final(self)@ == (AccountState {
                available: Amount::difference(old(self)@.available, amount).unwrap(),
                held: Amount::sum(old(self)@.held, amount).unwrap(),
                ..old(self)@
            }),
            r is Ok && Amount::subtracts_exactly(old(self)@.available, amount) ==> final(self)@.available == Amount::exact_difference(old(self)@.available, amount),
            r is Ok && Amount::adds_exactly(old(self)@.held, amount) ==> final(self)@.held
                == Amount::exact_sum(old(self)@.held, amount),
            r is Err ==> final(self)@ == old(self)@,
            final(self).wf(),
    {
        let decision = self.decide_debit(true, amount);
        if decision.is_err() {
            return decision;
        }
        self.available = self.available.checked_sub(amount).unwrap();
        self.held = self.held.checked_add(amount).unwrap();
        Ok(())
    }

    /// Moves `amount` from the held back to the available funds. Refused for
    /// an amount that is not positive, on a locked account, and where the held
    /// funds are smaller than the amount.
    pub fn release_funds(&mut self, amount: Amount) -> (r: Result<(), TransactionError>)
        requires
            old(self).wf(),
            amount.wf(),
            old(self)@.debit_outcome(old(self)@.held, amount) is Ok ==> AccountState::fits(
                Amount::difference(old(self)@.held, amount),
            ) && AccountState::fits(Amount::sum(old(self)@.available, amount)),
        ensures
            r == old(self)@.debit_outcome(old(self)@.held, amount),
            r is Ok ==> final(self)@ == (AccountState {
                held: Amount::difference(old(self)@.held, amount).unwrap(),
                available: Amount::sum(old(self)@.available, amount).unwrap(),
                ..old(self)@
            }),
            r is Ok && Amount::subtracts_exactly(old(self)@.held, amount) ==> final(self)@.held
                == Amount::exact_difference(old(self)@.held, amount),
            r is Ok && Amount::adds_exactly(old(self)@.available, amount) ==> final(self)@.available
                == Amount::exact_sum(old(self)@.available, amount),
            r is Err ==> final(self)@ == old(self)@,
            final(self).wf(),
    {
        let decision = self.decide_debit(false, amount);
        if decision.is_err() {
            return decision;
        }
        self.held = self.held.checked_sub(amount).unwrap();
        self.available = self.available.checked_add(amount).unwrap();
        Ok(())
    }

    /// Takes `amount` from the held funds and locks the account. Refused
    /// for an amount that is not positive, on a locked account, and where the
    /// held funds are smaller than the amount.
    pub fn chargeback(&mut self, amount: Amount) -> (r: Result<(), TransactionError>)
        requires
            old(self).wf(),
            amount.wf(),
            old(self)@.debit_outcome(old(self)@.held, amount) is Ok ==> AccountState::fits(
                Amount::difference(old(self)@.held, amount),
            ),
        ensures
            r == old(self)@.debit_outcome(old(self)@.held, amount),
            r is Ok ==> final(self)@ == (AccountState {
                held: Amount::difference(old(self)@.held, amount).unwrap(),
                locked: true,
                ..old(self)@
            }),
            r is Ok && Amount::subtracts_exactly(old(self)@.held, amount) ==> final(self)@.held
                == Amount::exact_difference(old(self)@.held, amount),
            r is Err ==> final(self)@ == old(self)@,
            final(self).wf(),
    {
        let decision = self.decide_debit(false, amount);
        if decision.is_err() {
            return decision;
        }
        self.held = self.held.checked_sub(amount).unwrap();
        self.locked = true;
        Ok(())
    }

    /// Whether the account accepts the transaction, and the error with which
    /// it refuses it. The account is not changed.
    pub fn decide(&self, t: &TransactionType) -> (r: Result<(), TransactionError>)
        requires
            self.wf(),
            t.wf(),
        ensures
            r == self@.outcome(*t),
    {
        if t.client_id() != self.client_id {
            return Err(TransactionError::ClientMismatch);
        }
        match t {
            TransactionType::Deposit { amount, .. } => self.decide_credit(*amount),
            TransactionType::Withdrawal { amount, .. } => self.decide_debit(true, *amount),
            TransactionType::Dispute { transaction_id, .. } => match self.deposit_record(
                *transaction_id,
            ) {
                None => Err(TransactionError::TransactionNotFound),
                Some(record) => if record.status != TransactionStatus::Applied {
                    Err(TransactionError::AlreadyDisputed)
                } else {
                    self.decide_debit(true, record.amount)
                },
            },
            TransactionType::Resolve { transaction_id, .. } => match self.deposit_record(
                *transaction_id,
            ) {
                None => Err(TransactionError::TransactionNotFound),
                Some(record) => if record.status != TransactionStatus::Inflight {
                    Err(TransactionError::NotDisputed)
                } else {
                    self.decide_debit(false, record.amount)
                },
            },
            TransactionType::Chargeback { transaction_id, .. } => match self.deposit_record(
                *transaction_id,
            ) {
                None => Err(TransactionError::TransactionNotFound),
                Some(record) => if record.status != TransactionStatus::Inflight {
                    Err(TransactionError::NotDisputed)
                } else {
                    self.decide_debit(false, record.amount)
                },
            },
        }
    }

    /// Whether a new balance is usable.
    fn usable(balance: Option<Amount>) -> (r: bool)
        ensures
            r == AccountState::fits(balance),
            balance is Some && balance.unwrap().wf() ==> r == (balance.unwrap().value() >= 0),
    {
        match balance {
            Some(b) => !b.is_negative(),
            None => false,
        }
    }

    /// Whether the balances that the transaction would give can be computed
    /// and are not negative; they are where the arithmetic is known to be
    /// exact. The account is not changed.
    pub fn admits(&self, t: &TransactionType) -> (r: bool)
        requires
            self.wf(),
            t.wf(),
        ensures
            r == self@.in_range(*t),
            self@.exact(*t) ==> r,
    {
        proof {
            lemma_value_sign(self.available);
            lemma_value_sign(self.held);
        }
        match self.decide(t) {
            Err(_) => true,
            Ok(_) => match t {
                TransactionType::Deposit { amount, .. } => Self::usable(
                    self.available.checked_add(*amount),
                ),
                TransactionType::Withdrawal { amount, .. } => Self::usable(
                    self.available.checked_sub(*amount),
                ),
                TransactionType::Dispute { transaction_id, .. } => {
                    let record = self.deposit_record(*transaction_id).unwrap();
                    Self::usable(self.available.checked_sub(record.amount)) && Self::usable(
                        self.held.checked_add(record.amount),
                    )
                },
                TransactionType::Resolve { transaction_id, .. } => {
                    let record = self.deposit_record(*transaction_id).unwrap();
                    Self::usable(self.held.checked_sub(record.amount)) && Self::usable(
                        self.available.checked_add(record.amount),
                    )
                },
                TransactionType::Chargeback { transaction_id, .. } => {
                    let record = self.deposit_record(*transaction_id).unwrap();
                    Self::usable(self.held.checked_sub(record.amount))
                },
            },
        }
    }

    /// Gives the deposit `tx` a new status.
    fn mark(&mut self, tx: u32, status: TransactionStatus)
        requires
            old(self).wf(),
            old(self)@.deposits.contains_key(tx),
        ensures
            final(self)@ == (AccountState { deposits: old(self)@.marked(tx, status), ..old(self)@ }),
            final(self).wf(),
    {
        let record = self.deposit_record(TransactionId(tx)).unwrap();
        self.deposits.insert(tx, DepositRecord { amount: record.amount, status });
        assert(self@.deposits =~= old(self)@.marked(tx, status));
    }

    /// Applies a transaction.
    ///
    /// The account refuses the transaction with the error that
    /// [`AccountState::outcome`] gives and then stays as it was, or accepts it
    /// and becomes what [`AccountState::next`] gives. A lock, once set, stays.
    pub fn apply(&mut self, transaction: TransactionType) -> (r: Result<(), TransactionError>)
        requires
            old(self).wf(),
            transaction.wf(),
            old(self)@.in_range(transaction),
        ensures
            r == old(self)@.outcome(transaction),
            final(self)@ == old(self)@.step(transaction),
            r is Err ==> final(self)@ == old(self)@,
            r is Ok && old(self)@.exact(transaction) ==> final(self)@ == old(self)@.exact_next(
                transaction,
            ),
            final(self).wf(),
            final(self)@.client == old(self)@.client,
            old(self)@.locked ==> final(self)@.locked,
    {
        if transaction.client_id() != self.client_id {
            return Err(TransactionError::ClientMismatch);
        }
        match transaction {
            TransactionType::Deposit { transaction_id, amount, .. } => {
                let done = self.deposit(amount);
                if done.is_err() {
                    return done;
                }
                self.deposits.insert(
                    transaction_id.0,
                    DepositRecord { amount, status: TransactionStatus::Applied },
                );
                proof {
                    lemma_value_sign(amount);
                }
            },
            TransactionType::Withdrawal { amount, .. } => {
                let done = self.withdraw(amount);
                if done.is_err() {
                    return done;
                }
            },
            TransactionType::Dispute { transaction_id, .. } => {
                let record = match self.deposit_record(transaction_id) {
                    Some(record) => record,
                    None => {
                        return Err(TransactionError::TransactionNotFound);
                    },
                };
                if record.status != TransactionStatus::Applied {
                    return Err(TransactionError::AlreadyDisputed);
                }
                let done = self.hold_funds(record.amount);
                if done.is_err() {
                    return done;
                }
                self.mark(transaction_id.0, TransactionStatus::Inflight);
            },
            TransactionType::Resolve { transaction_id, .. } => {
                let record = match self.deposit_record(transaction_id) {
                    Some(record) => record,
                    None => {
                        return Err(TransactionError::TransactionNotFound);
                    },
                };
                if record.status != TransactionStatus::Inflight {
                    return Err(TransactionError::NotDisputed);
                }
                let done = self.release_funds(record.amount);
                if done.is_err() {
                    return done;
                }
                self.mark(transaction_id.0, TransactionStatus::Resolved);
            },
            TransactionType::Chargeback { transaction_id, .. } => {
                let record = match self.deposit_record(transaction_id) {
                    Some(record) => record,
                    None => {
                        return Err(TransactionError::TransactionNotFound);
                    },
                };
                if record.status != TransactionStatus::Inflight {
                    return Err(TransactionError::NotDisputed);
                }
                let done = self.chargeback(record.amount);
                if done.is_err() {
                    return done;
                }
                self.mark(transaction_id.0, TransactionStatus::Voided);
            },
        }
        Ok(())
    }
}

impl View for Account {
    type V = AccountState;

    closed spec fn view(&self) -> AccountState {
        guarded(self.inner)
    }
}

impl Account {
    /// The number of fractional digits that balances are written with.
    pub const DECIMAL_PRECISION: u32 = 4;

    /// The account's state is well-formed.
    pub open spec fn wf(&self) -> bool {
        self@.wf()
    }

    /// The balances and the lock of the account as a snapshot.
    pub open spec fn spec_snapshot(&self) -> AccountSnapshot {
        self@.snapshot()
    }

    /// An account with no funds and no deposits, not locked.
    pub fn new(client_id: ClientId) -> (r: Account)
        ensures
            r@ == AccountState::fresh(client_id),
            r.wf(),
    {
        Account { inner: guard_new(AccountData::new(client_id)) }
    }

    /// The balances and the lock, read together.
    pub fn snapshot(&self) -> (r: AccountSnapshot)
        ensures
            r == self.spec_snapshot(),
            self.wf() ==> r.wf(),
    {
        guard_read(&self.inner)
    }

    /// The client that the account belongs to.
    pub fn client_id(&self) -> (r: ClientId)
        ensures
            r == self@.client,
    {
        self.snapshot().client
    }

    /// The funds that the client can withdraw.
    pub fn available(&self) -> (r: Amount)
        ensures
            r == self@.available,
    {
        self.snapshot().available
    }

    /// The funds that are set aside for disputes.
    pub fn held(&self) -> (r: Amount)
        ensures
            r == self@.held,
    {
        self.snapshot().held
    }

    /// Whether the account is locked.
    pub fn locked(&self) -> (r: bool)
        ensures
            r == self@.locked,
    {
        self.snapshot().locked
    }

    /// The available and the held funds together, where their sum is in
    /// range.
    pub fn total(&self) -> (r: Amount)
        requires
            self.wf(),
            self.spec_snapshot().spec_total() is Some,
        ensures
            Some(r) == self.spec_snapshot().spec_total(),
            r.wf(),
            Amount::adds_exactly(self@.available, self@.held) ==> r == Amount::exact_sum(
                self@.available,
                self@.held,
            ) && r.value() == self@.available.value() + self@.held.value() && r.value() >= 0,
    {
        self.snapshot().total()
    }

    /// The available and the held funds together, or `None` where their sum
    /// is out of range.
    pub fn try_total(&self) -> (r: Option<Amount>)
        requires
            self.wf(),
        ensures
            r == self.spec_snapshot().spec_total(),
            r is Some ==> r.unwrap().wf(),
            Amount::adds_exactly(self@.available, self@.held) ==> r == Some(
                Amount::exact_sum(self@.available, self@.held),
            ),
    {
        match self.snapshot().try_total() {
            Some(_) => Some(self.total()),
            None => None,
        }
    }

    /// Whether the balances that the transaction would give can be computed
    /// and are not negative. The account is left as it was.
    pub fn admits(&mut self, transaction: &TransactionType) -> (r: bool)
        requires
            old(self).wf(),
            transaction.wf(),
        ensures
            r == old(self)@.in_range(*transaction),
            old(self)@.exact(*transaction) ==> r,
            final(self)@ == old(self)@,
    {
        let data = guard_get_mut(&mut self.inner);
        data.admits(transaction)
    }

    /// Applies a transaction to the account.
    ///
    /// The account refuses the transaction with the error that
    /// [`AccountState::outcome`] gives and then stays as it was, or accepts it
    /// and becomes what [`AccountState::next`] gives. A lock, once set, stays.
    pub fn add_transaction(&mut self, transaction: TransactionType) -> (r: Result<
        (),
        TransactionError,
    >)
        requires
            old(self).wf(),
            transaction.wf(),
            old(self)@.in_range(transaction),
        ensures
            r == old(self)@.outcome(transaction),
            final(self)@ == old(self)@.step(transaction),
            r is Err ==> final(self)@ == old(self)@,
            r is Ok && old(self)@.exact(transaction) ==> final(self)@ == old(self)@.exact_next(
                transaction,
            ),
            final(self).wf(),
            final(self)@.client == old(self)@.client,
            old(self)@.locked ==> final(self)@.locked,
    {
        let data = guard_get_mut(&mut self.inner);
        data.apply(transaction)
    }

    /// Applies a transaction to the account where the balances that it gives
    /// can be computed and are not negative, and returns what
    /// [`Account::add_transaction`] returns; otherwise leaves the account as
    /// it was and returns `None`.
    pub fn try_add_transaction(&mut self, transaction: TransactionType) -> (r: Option<
        Result<(), TransactionError>,
    >)
        requires
            old(self).wf(),
            transaction.wf(),
        ensures
            r is Some <==> old(self)@.in_range(transaction),
            old(self)@.exact(transaction) ==> r is Some,
            r is Some ==> r.unwrap() == old(self)@.outcome(transaction) && final(self)@ == old(self)@.step(transaction),
            r == Some(Ok::<(), TransactionError>(())) && old(self)@.exact(transaction) ==> final(self)@ == old(self)@.exact_next(transaction),
            r is None ==> final(self)@ == old(self)@,
            final(self).wf(),
            final(self)@.client == old(self)@.client,
            old(self)@.locked ==> final(self)@.locked,
    {
        if self.admits(&transaction) {
            Some(self.add_transaction(transaction))
        } else {
            None
        }
    }
}

} // verus!
