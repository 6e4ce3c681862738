//! The record of the transactions that the engine has taken on, which refuses
//! an identifier that it holds already.

use crate::base::TransactionId;
use crate::error::TransactionError;
use crate::store::{claimed, claims_contains, claims_insert, claims_new, no_claims};
use crate::transaction::TransactionType;
use crossbeam::queue::SegQueue;
use dashmap::DashMap;
use vstd::prelude::*;

verus! {

/// The unbounded queue of `crossbeam`, of which Verus sees nothing inside.
#[verifier::external_type_specification]
#[verifier::external_body]
#[verifier::reject_recursive_types(T)]
pub struct ExSegQueue<T>(SegQueue<T>);

/// The identifiers that a queue holds, oldest first.
pub uninterp spec fn queued(q: SegQueue<u32>) -> Seq<u32>;

/// `SegQueue::new`: an empty queue.
#[verifier::external_body]
fn order_new() -> (r: SegQueue<u32>)
    ensures
        queued(r) == Seq::<u32>::empty(),
{
    SegQueue::new()
}

/// `SegQueue::push`: the value goes to the back of the queue.
#[verifier::external_body]
fn order_push(q: &mut SegQueue<u32>, id: u32)
    ensures
        queued(*final(q)) == queued(*old(q)).push(id),
{
    q.push(id);
}

/// Transactions by identifier, and the identifiers in the order in which
/// they came.
pub struct TransactionQueue {
    transactions: DashMap<u32, TransactionType>,
    transaction_ids: SegQueue<u32>,
}

impl Default for TransactionQueue {
    /// A record that holds nothing.
    fn default() -> (r: TransactionQueue)
        ensures
            r.entries() == no_claims(),
            r.order() == Seq::<u32>::empty(),
            r.wf(),
    {
        TransactionQueue::new()
    }
}

impl TransactionQueue {
    /// The transactions on record, by identifier.
    pub closed spec fn entries(&self) -> Map<u32, TransactionType> {
        claimed(self.transactions)
    }

    /// The identifiers on record, oldest first.
    pub closed spec fn order(&self) -> Seq<u32> {
        queued(self.transaction_ids)
    }

    /// Every transaction stands under its own identifier, and the identifiers
    /// in the order of arrival are those on record, each once.
    pub open spec fn wf(&self) -> bool {
        &&& forall|id: u32| #[trigger]
            self.entries().contains_key(id) ==> self.entries()[id].spec_id().0 == id
        &&& forall|id: u32| self.order().contains(id) <==> #[trigger] self.entries().contains_key(id)
        &&& self.order().no_duplicates()
    }

    /// A record that holds nothing.
    pub fn new() -> (r: TransactionQueue)
        ensures
            r.entries() == no_claims(),
            r.order() == Seq::<u32>::empty(),
            r.wf(),
    {
        TransactionQueue { transactions: claims_new(), transaction_ids: order_new() }
    }

    /// Whether a transaction with the identifier is on record.
    pub fn contains(&self, id: TransactionId) -> (r: bool)
        ensures
            r == self.entries().contains_key(id.0),
    {
        claims_contains(&self.transactions, id.0)
    }

    /// Puts a transaction on record under its identifier, last in the order
    /// of arrival. Where the identifier is on record already, the transaction
    /// is refused as a duplicate and the record stays as it was.
    pub fn push(&mut self, transaction: TransactionType) -> (r: Result<(), TransactionError>)
        requires
            old(self).wf(),
        ensures
            final(self).wf(),
            r is Err <==> old(self).entries().contains_key(transaction.spec_id().0),
            r is Err ==> r == Err::<(), TransactionError>(TransactionError::DuplicateTransaction)
                && final(self).entries() == old(self).entries() && final(self).order() == old(self).order(),
            r is Ok ==> final(self).entries() == old(self).entries().insert(
                transaction.spec_id().0,
                transaction,
            ) && final(self).order() == old(self).order().push(transaction.spec_id().0),
    {
        let id = transaction.id();
        if claims_contains(&self.transactions, id.0) {
            Err(TransactionError::DuplicateTransaction)
        } else {
            claims_insert(&mut self.transactions, id.0, transaction);
            order_push(&mut self.transaction_ids, id.0);
            proof {
                let before = old(self).order();
                let after = self.order();
                assert forall|x: u32| after.contains(x) <==> #[trigger] self.entries().contains_key(
                    x,
                ) by {
                    if after.contains(x) {
                        let i = choose|i: int| 0 <= i < after.len() && after[i] == x;
                        if i < before.len() {
                            assert(before[i] == x);
                            assert(before.contains(x));
                            assert(old(self).entries().contains_key(x));
                        }
                    }
                    if self.entries().contains_key(x) {
                        if x == id.0 {
                            assert(after[before.len() as int] == x);
                        } else {
                            assert(old(self).entries().contains_key(x));
                            assert(before.contains(x));
                            let i = choose|i: int| 0 <= i < before.len() && before[i] == x;
                            assert(after[i] == x);
                        }
                    }
                }
                assert forall|x: u32| #[trigger]
                    self.entries().contains_key(x) implies self.entries()[x].spec_id().0 == x by {
                    if x != id.0 {
                        assert(old(self).entries().contains_key(x));
                    }
                }
                assert(after.no_duplicates()) by {
                    assert forall|i: int, j: int|
                        0 <= i < after.len() && 0 <= j < after.len() && i != j implies after[i]
                        != after[j] by {
                        if i < before.len() && j < before.len() {
                        } else if i < before.len() {
                            assert(before.contains(before[i]));
                            assert(old(self).entries().contains_key(before[i]));
                        } else if j < before.len() {
                            assert(before.contains(before[j]));
                            assert(old(self).entries().contains_key(before[j]));
                        }
                    }
                }
            }
            Ok(())
        }
    }
}

} // verus!
