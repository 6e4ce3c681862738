//! What holds of an account, and of the engine, over more than one
//! transaction.
//!
//! The statements on balances speak of transactions whose arithmetic is known
//! to be exact ([`AccountState::exact`]); for those, an account that accepts a
//! transaction becomes [`AccountState::exact_next`].

use crate::account::{AccountState, DepositRecord};
use crate::amount::{
    lemma_exact_difference_value,
    lemma_exact_sum_value,
    lemma_value_sign,
    Amount,
};
use crate::base::{ClientId, TransactionId};
use crate::engine::EngineState;
use crate::error::TransactionError;
use crate::transaction::{TransactionStatus, TransactionType};
use vstd::prelude::*;

verus! {

/// The deposit of `entry.1` under the identifier `entry.0`.
pub open spec fn deposit_of(client: ClientId, entry: (u32, Amount)) -> TransactionType {
    TransactionType::Deposit {
        client_id: client,
        transaction_id: TransactionId(entry.0),
        amount: entry.1,
        status: TransactionStatus::Applied,
    }
}

/// A new account after the deposits in turn, each added exactly.
pub open spec fn after_deposits(client: ClientId, entries: Seq<(u32, Amount)>) -> AccountState
    decreases entries.len(),
{
    if entries.len() == 0 {
        AccountState::fresh(client)
    } else {
        after_deposits(client, entries.drop_last()).exact_next(deposit_of(client, entries.last()))
    }
}

/// Every deposit has a positive amount in range and is added exactly.
pub open spec fn deposits_exact(client: ClientId, entries: Seq<(u32, Amount)>) -> bool
    decreases entries.len(),
{
    entries.len() == 0 || {
        &&& deposits_exact(client, entries.drop_last())
        &&& entries.last().1.wf()
        &&& entries.last().1.mantissa > 0
        &&& after_deposits(client, entries.drop_last()).exact(deposit_of(client, entries.last()))
    }
}

/// The sum of the numbers that the deposits stand for.
pub open spec fn deposited(entries: Seq<(u32, Amount)>) -> int
    decreases entries.len(),
{
    if entries.len() == 0 {
        0
    } else {
        deposited(entries.drop_last()) + entries.last().1.value()
    }
}

/// A new account accepts positive deposits one after the other; afterwards
/// the available funds are the sum of the amounts, nothing is held, and the
/// account is not locked.
pub proof fn lemma_deposits_add_up(client: ClientId, entries: Seq<(u32, Amount)>)
    requires
        deposits_exact(client, entries),
    ensures
        after_deposits(client, entries).wf(),
        after_deposits(client, entries).client == client,
        after_deposits(client, entries).available.value() == deposited(entries),
        after_deposits(client, entries).held == (Amount { mantissa: 0, scale: 0 }),
        !after_deposits(client, entries).locked,
        entries.len() > 0 ==> after_deposits(client, entries.drop_last()).outcome(
            deposit_of(client, entries.last()),
        ) is Ok,
    decreases entries.len(),
{
    if entries.len() == 0 {
        lemma_value_sign(Amount { mantissa: 0, scale: 0 });
    } else {
        let before = after_deposits(client, entries.drop_last());
        let amount = entries.last().1;
        lemma_deposits_add_up(client, entries.drop_last());
        lemma_exact_sum_value(before.available, amount);
        lemma_value_sign(before.available);
        lemma_value_sign(amount);
        lemma_value_sign(Amount::exact_sum(before.available, amount));
    }
}

/// What the deposit `tx` adds to the funds under dispute: its amount while
/// it is in flight, else nothing.
pub open spec fn inflight_value(deposits: Map<u32, DepositRecord>, tx: u32) -> int {
    if deposits.contains_key(tx) && deposits[tx].status == TransactionStatus::Inflight {
        deposits[tx].amount.value()
    } else {
        0
    }
}

/// The amounts of the deposits in flight whose identifiers are below `n`.
pub open spec fn inflight_below(deposits: Map<u32, DepositRecord>, n: nat) -> int
    decreases n,
{
    if n == 0 {
        0
    } else {
        inflight_below(deposits, (n - 1) as nat) + inflight_value(deposits, (n - 1) as u32)
    }
}

/// The amounts of all the deposits in flight.
pub open spec fn inflight_total(deposits: Map<u32, DepositRecord>) -> int {
    inflight_below(deposits, 0x1_0000_0000)
}

/// The held funds are the amounts of the deposits in flight.
pub open spec fn settled(s: AccountState) -> bool {
    s.held.value() == inflight_total(s.deposits)
}

/// A new record under `tx` changes the amounts in flight by what the deposit
/// `tx` adds after the change, less what it added before.
pub proof fn lemma_inflight_change(
    deposits: Map<u32, DepositRecord>,
    tx: u32,
    record: DepositRecord,
    n: nat,
)
    requires
        n <= 0x1_0000_0000,
    ensures
        inflight_below(deposits.insert(tx, record), n) == inflight_below(deposits, n) + (if tx < n {
            inflight_value(deposits.insert(tx, record), tx) - inflight_value(deposits, tx)
        } else {
            0
        }),
    decreases n,
{
    if n > 0 {
        lemma_inflight_change(deposits, tx, record, (n - 1) as nat);
    }
}

/// Nothing is in flight where nothing is on record.
pub proof fn lemma_nothing_inflight(n: nat)
    ensures
        inflight_below(Map::<u32, DepositRecord>::empty(), n) == 0,
    decreases n,
{
    if n > 0 {
        lemma_nothing_inflight((n - 1) as nat);
    }
}

/// The held funds stay the amounts of the deposits in flight: they are on
/// a new account, and every accepted transaction keeps them so. (A deposit
/// under an identifier that is on record already is left out: the engine
/// refuses it as a duplicate before the account sees it.)
pub proof fn lemma_held_is_inflight(s: AccountState, t: TransactionType)
    requires
        s.wf(),
        settled(s),
        s.outcome(t) is Ok,
        s.exact(t),
        t is Deposit ==> !s.deposits.contains_key(t.spec_id().0),
    ensures
        settled(AccountState::fresh(s.client)),
        settled(s.exact_next(t)),
{
    lemma_nothing_inflight(0x1_0000_0000);
    lemma_value_sign(Amount { mantissa: 0, scale: 0 });
    let n: nat = 0x1_0000_0000;
    match t {
        TransactionType::Deposit { transaction_id, amount, .. } => {
            lemma_inflight_change(
                s.deposits,
                transaction_id.0,
                DepositRecord { amount, status: TransactionStatus::Applied },
                n,
            );
        },
        TransactionType::Withdrawal { .. } => {},
        TransactionType::Dispute { transaction_id, .. } => {
            let amount = s.deposits[transaction_id.0].amount;
            assert(s.deposits.contains_key(transaction_id.0));
            lemma_exact_sum_value(s.held, amount);
            lemma_inflight_change(
                s.deposits,
                transaction_id.0,
                DepositRecord { amount, status: TransactionStatus::Inflight },
                n,
            );
        },
        TransactionType::Resolve { transaction_id, .. } => {
            let amount = s.deposits[transaction_id.0].amount;
            assert(s.deposits.contains_key(transaction_id.0));
            lemma_exact_difference_value(s.held, amount);
            lemma_inflight_change(
                s.deposits,
                transaction_id.0,
                DepositRecord { amount, status: TransactionStatus::Resolved },
                n,
            );
        },
        TransactionType::Chargeback { transaction_id, .. } => {
            let amount = s.deposits[transaction_id.0].amount;
            assert(s.deposits.contains_key(transaction_id.0));
            lemma_exact_difference_value(s.held, amount);
            lemma_inflight_change(
                s.deposits,
                transaction_id.0,
                DepositRecord { amount, status: TransactionStatus::Voided },
                n,
            );
        },
    }
}

/// The amounts in flight below `n` are at least that of any one deposit
/// below `n`.
pub proof fn lemma_inflight_covers(s: AccountState, tx: u32, n: nat)
    requires
        s.wf(),
        n <= 0x1_0000_0000,
    ensures
        inflight_below(s.deposits, n) >= 0,
        tx < n ==> inflight_below(s.deposits, n) >= inflight_value(s.deposits, tx),
    decreases n,
{
    if n > 0 {
        lemma_inflight_covers(s, tx, (n - 1) as nat);
        let last = (n - 1) as u32;
        if s.deposits.contains_key(last) {
            lemma_value_sign(s.deposits[last].amount);
        }
    }
}

/// Where the held funds are the amounts of the deposits in flight, they
/// cover each of them: on an account that is not locked, a resolve or a
/// chargeback of a deposit in flight is accepted.
pub proof fn lemma_inflight_funds_suffice(s: AccountState, tx: TransactionId)
    requires
        s.wf(),
        settled(s),
        !s.locked,
        s.deposits.contains_key(tx.0),
        s.deposits[tx.0].status == TransactionStatus::Inflight,
    ensures
        s.held.value() >= s.deposits[tx.0].amount.value(),
        s.outcome(TransactionType::Resolve { client_id: s.client, transaction_id: tx }) is Ok,
        s.outcome(TransactionType::Chargeback { client_id: s.client, transaction_id: tx }) is Ok,
{
    lemma_inflight_covers(s, tx.0, 0x1_0000_0000);
    lemma_value_sign(s.deposits[tx.0].amount);
}

/// A locked account stays locked, whatever transactions follow.
pub proof fn lemma_lock_stays(s: AccountState, events: Seq<TransactionType>)
    requires
        s.locked,
    ensures
        s.run(events).locked,
        s.run(events).client == s.client,
    decreases events.len(),
{
    if events.len() > 0 {
        lemma_lock_stays(s, events.drop_last());
    }
}

/// A resolve undoes a dispute: the account accepts it, and the available
/// funds, the held funds and the lock are what they were before the dispute.
pub proof fn lemma_resolve_restores(s: AccountState, client: ClientId, tx: TransactionId)
    requires
        s.wf(),
        s.outcome(TransactionType::Dispute { client_id: client, transaction_id: tx }) is Ok,
        s.exact(TransactionType::Dispute { client_id: client, transaction_id: tx }),
        s.exact_next(TransactionType::Dispute { client_id: client, transaction_id: tx }).exact(
            TransactionType::Resolve { client_id: client, transaction_id: tx },
        ),
    ensures
        ({
            let disputed = s.exact_next(
                TransactionType::Dispute { client_id: client, transaction_id: tx },
            );
            let resolve = TransactionType::Resolve { client_id: client, transaction_id: tx };
            &&& disputed.outcome(resolve) is Ok
            &&& disputed.exact_next(resolve).available.value() == s.available.value()
            &&& disputed.exact_next(resolve).held.value() == s.held.value()
            &&& disputed.exact_next(resolve).locked == s.locked
        }),
{
    let amount = s.deposits[tx.0].amount;
    let disputed = s.exact_next(TransactionType::Dispute { client_id: client, transaction_id: tx });
    assert(s.deposits.contains_key(tx.0));
    lemma_exact_difference_value(s.available, amount);
    lemma_exact_sum_value(s.held, amount);
    assert(disputed.deposits[tx.0].amount == amount);
    lemma_exact_difference_value(disputed.held, amount);
    lemma_exact_sum_value(disputed.available, amount);
    lemma_value_sign(s.held);
    lemma_value_sign(amount);
}

/// A chargeback after a dispute: the account accepts it; the held funds go
/// down by the disputed amount, to what they were before the dispute; the
/// available funds stay what the dispute left; the account is locked.
pub proof fn lemma_chargeback_after_dispute(s: AccountState, client: ClientId, tx: TransactionId)
    requires
        s.wf(),
        s.outcome(TransactionType::Dispute { client_id: client, transaction_id: tx }) is Ok,
        s.exact(TransactionType::Dispute { client_id: client, transaction_id: tx }),
        s.exact_next(TransactionType::Dispute { client_id: client, transaction_id: tx }).exact(
            TransactionType::Chargeback { client_id: client, transaction_id: tx },
        ),
    ensures
        ({
            let disputed = s.exact_next(
                TransactionType::Dispute { client_id: client, transaction_id: tx },
            );
            let chargeback = TransactionType::Chargeback { client_id: client, transaction_id: tx };
            &&& disputed.outcome(chargeback) is Ok
            &&& disputed.exact_next(chargeback).held.value() == disputed.held.value()
                - s.deposits[tx.0].amount.value()
            &&& disputed.exact_next(chargeback).held.value() == s.held.value()
            &&& disputed.exact_next(chargeback).available == disputed.available
            &&& disputed.exact_next(chargeback).locked
        }),
{
    let amount = s.deposits[tx.0].amount;
    let disputed = s.exact_next(TransactionType::Dispute { client_id: client, transaction_id: tx });
    assert(s.deposits.contains_key(tx.0));
    lemma_exact_difference_value(s.available, amount);
    lemma_exact_sum_value(s.held, amount);
    assert(disputed.deposits[tx.0].amount == amount);
    lemma_exact_difference_value(disputed.held, amount);
    lemma_value_sign(s.held);
    lemma_value_sign(amount);
}

/// A withdrawal of the amount that was just deposited is accepted and brings
/// the available funds back to what they were.
pub proof fn lemma_withdrawal_undoes_deposit(
    s: AccountState,
    client: ClientId,
    deposit: TransactionId,
    withdrawal: TransactionId,
    amount: Amount,
)
    requires
        s.wf(),
        amount.wf(),
        s.outcome(deposit_of(client, (deposit.0, amount))) is Ok,
        s.exact(deposit_of(client, (deposit.0, amount))),
        s.exact_next(deposit_of(client, (deposit.0, amount))).exact(
            TransactionType::Withdrawal { client_id: client, transaction_id: withdrawal, amount },
        ),
    ensures
        ({
            let credited = s.exact_next(deposit_of(client, (deposit.0, amount)));
            let back = TransactionType::Withdrawal {
                client_id: client,
                transaction_id: withdrawal,
                amount,
            };
            &&& credited.outcome(back) is Ok
            &&& credited.exact_next(back).available.value() == s.available.value()
        }),
{
    let credited = s.exact_next(deposit_of(client, (deposit.0, amount)));
    lemma_exact_sum_value(s.available, amount);
    lemma_exact_difference_value(credited.available, amount);
    lemma_value_sign(s.available);
}

/// A second dispute of the same deposit is refused as already disputed.
pub proof fn lemma_second_dispute_refused(s: AccountState, client: ClientId, tx: TransactionId)
    requires
        s.outcome(TransactionType::Dispute { client_id: client, transaction_id: tx }) is Ok,
    ensures
        s.next(TransactionType::Dispute { client_id: client, transaction_id: tx }).outcome(
            TransactionType::Dispute { client_id: client, transaction_id: tx },
        ) == Err::<(), TransactionError>(TransactionError::AlreadyDisputed),
        s.next(TransactionType::Dispute { client_id: client, transaction_id: tx }).step(
            TransactionType::Dispute { client_id: client, transaction_id: tx },
        ) == s.next(TransactionType::Dispute { client_id: client, transaction_id: tx }),
{
    assert(s.deposits.contains_key(tx.0));
}

/// A resolve or chargeback of a deposit on record that is not under dispute
/// is refused as not disputed, and the account stays as it is.
pub proof fn lemma_undisputed_refused(s: AccountState, tx: TransactionId)
    requires
        s.deposits.contains_key(tx.0),
        s.deposits[tx.0].status != TransactionStatus::Inflight,
    ensures
        s.outcome(TransactionType::Resolve { client_id: s.client, transaction_id: tx }) == Err::<
            (),
            TransactionError,
        >(TransactionError::NotDisputed),
        s.outcome(TransactionType::Chargeback { client_id: s.client, transaction_id: tx }) == Err::<
            (),
            TransactionError,
        >(TransactionError::NotDisputed),
        s.step(TransactionType::Resolve { client_id: s.client, transaction_id: tx }) == s,
        s.step(TransactionType::Chargeback { client_id: s.client, transaction_id: tx }) == s,
{
}

/// A withdrawal of all the available funds is accepted and leaves none.
pub proof fn lemma_withdraw_all(s: AccountState, tx: TransactionId, amount: Amount)
    requires
        s.wf(),
        amount.wf(),
        !s.locked,
        amount.value() > 0,
        amount.value() == s.available.value(),
        s.exact(TransactionType::Withdrawal { client_id: s.client, transaction_id: tx, amount }),
    ensures
        s.outcome(TransactionType::Withdrawal { client_id: s.client, transaction_id: tx, amount })
            is Ok,
        s.exact_next(
            TransactionType::Withdrawal { client_id: s.client, transaction_id: tx, amount },
        ).available.value() == 0,
{
    lemma_exact_difference_value(s.available, amount);
}

/// A withdrawal of more than the available funds is refused for
/// insufficient funds, by however little it exceeds them.
pub proof fn lemma_overdraw_refused(s: AccountState, tx: TransactionId, amount: Amount)
    requires
        !s.locked,
        amount.value() > 0,
        amount.value() > s.available.value(),
    ensures
        s.outcome(TransactionType::Withdrawal { client_id: s.client, transaction_id: tx, amount })
            == Err::<(), TransactionError>(TransactionError::InsufficientFunds),
        s.step(TransactionType::Withdrawal { client_id: s.client, transaction_id: tx, amount })
            == s,
{
}

/// A deposit on record stays on record with its amount, and its status
/// moves only from applied to in flight, and from in flight to resolved or
/// voided. (A second deposit under the same identifier would replace the
/// record; the engine refuses it as a duplicate before the account sees it.)
pub proof fn lemma_deposit_lifecycle(s: AccountState, t: TransactionType, tx: u32)
    requires
        s.deposits.contains_key(tx),
        !(t is Deposit && t.spec_id().0 == tx),
    ensures
        s.step(t).deposits.contains_key(tx),
        s.step(t).deposits[tx].amount == s.deposits[tx].amount,
        ({
            let before = s.deposits[tx].status;
            let after = s.step(t).deposits[tx].status;
            ||| after == before
            ||| before == TransactionStatus::Applied && after == TransactionStatus::Inflight
            ||| before == TransactionStatus::Inflight && after == TransactionStatus::Resolved
            ||| before == TransactionStatus::Inflight && after == TransactionStatus::Voided
        }),
{
}

/// An account, once opened, stays, whatever transactions follow.
pub proof fn lemma_accounts_stay(s: EngineState, events: Seq<TransactionType>, client: u16)
    requires
        s.accounts.contains_key(client),
    ensures
        s.run(events).accounts.contains_key(client),
    decreases events.len(),
{
    if events.len() > 0 {
        lemma_accounts_stay(s, events.drop_last(), client);
    }
}

/// Transactions for different clients commute, unless both are a deposit
/// or withdrawal under one identifier: in either order each gets the same
/// result, and the engine ends in the same state.
pub proof fn lemma_disjoint_clients_commute(s: EngineState, a: TransactionType, b: TransactionType)
    requires
        a.spec_client_id() != b.spec_client_id(),
        !(a.spec_is_monetary() && b.spec_is_monetary() && a.spec_id() == b.spec_id()),
    ensures
        s.next(a).outcome(b) == s.outcome(b),
        s.next(b).outcome(a) == s.outcome(a),
        s.next(a).next(b) == s.next(b).next(a),
{
    assert(s.next(a).next(b).accounts =~= s.next(b).next(a).accounts);
    assert(s.next(a).next(b).claimed =~= s.next(b).next(a).claimed);
}

/// A deposit that gets as far as an account finds no deposit on record
/// under its identifier: no record is ever replaced.
pub proof fn lemma_deposit_is_new(s: EngineState, t: TransactionType)
    requires
        s.wf(),
        t is Deposit,
        s.reaches_account(t),
    ensures
        !s.target(t.spec_client_id()).deposits.contains_key(t.spec_id().0),
{
}

/// An identifier that is claimed stays claimed, whatever transactions
/// follow.
pub proof fn lemma_claim_stays(s: EngineState, events: Seq<TransactionType>, id: u32)
    requires
        s.claimed.contains(id),
    ensures
        s.run(events).claimed.contains(id),
    decreases events.len(),
{
    if events.len() > 0 {
        lemma_claim_stays(s, events.drop_last(), id);
    }
}

/// An identifier serves one deposit or withdrawal: after the engine has
/// taken one on, every later deposit or withdrawal with the same identifier
/// is refused as a duplicate, whatever came in between, and changes no
/// account.
pub proof fn lemma_identifier_used_once(
    s: EngineState,
    first: TransactionType,
    between: Seq<TransactionType>,
    second: TransactionType,
)
    requires
        first.spec_is_monetary(),
        second.spec_is_monetary(),
        first.spec_id() == second.spec_id(),
    ensures
        s.next(first).run(between).outcome(second) == Err::<(), TransactionError>(
            TransactionError::DuplicateTransaction,
        ),
        s.next(first).run(between).next(second).accounts == s.next(first).run(between).accounts,
{
    lemma_claim_stays(s.next(first), between, first.spec_id().0);
}

} // verus!
