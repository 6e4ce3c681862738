//! The concurrent map of `dashmap` as the engine uses it: once keyed by
//! transaction identifier, once by client.
//!
//! Verus sees nothing inside a `DashMap`. What one holds is given a name
//! here, and the contracts of the functions below say, over those names, what
//! each call does to the map. They are taken on trust.

use crate::account::{Account, AccountSnapshot, AccountState};
use crate::transaction::TransactionType;
use dashmap::DashMap;
use vstd::prelude::*;

verus! {

/// The concurrent map of `dashmap`, of which Verus sees nothing inside.
#[verifier::external_type_specification]
#[verifier::external_body]
#[verifier::reject_recursive_types(K)]
#[verifier::reject_recursive_types(V)]
#[verifier::reject_recursive_types(S)]
pub struct ExDashMap<K, V, S>(DashMap<K, V, S>);

/// The transactions that a map holds, by identifier.
pub uninterp spec fn claimed(m: DashMap<u32, TransactionType>) -> Map<u32, TransactionType>;

/// The states of the accounts that a map holds, by client.
pub uninterp spec fn kept(m: DashMap<u16, Account>) -> Map<u16, AccountState>;

/// No transaction under any identifier.
pub open spec fn no_claims() -> Map<u32, TransactionType> {
    Map::empty()
}

/// No account under any client.
pub open spec fn no_accounts() -> Map<u16, AccountState> {
    Map::empty()
}

/// `DashMap::new`: a map that holds nothing.
#[verifier::external_body]
pub(crate) fn claims_new() -> (r: DashMap<u32, TransactionType>)
    ensures
        claimed(r) == no_claims(),
{
    DashMap::new()
}

/// `DashMap::contains_key`: whether the map holds the key.
#[verifier::external_body]
pub(crate) fn claims_contains(m: &DashMap<u32, TransactionType>, id: u32) -> (r: bool)
    ensures
        r == claimed(*m).contains_key(id),
{
    m.contains_key(&id)
}

/// `DashMap::insert`: afterwards the map holds the value under the key, and
/// under every other key what it held before.
#[verifier::external_body]
pub(crate) fn claims_insert(m: &mut DashMap<u32, TransactionType>, id: u32, t: TransactionType)
    ensures
        claimed(*final(m)) == claimed(*old(m)).insert(id, t),
{
    m.insert(id, t);
}

/// `DashMap::new`: a map that holds nothing.
#[verifier::external_body]
pub(crate) fn accounts_new() -> (r: DashMap<u16, Account>)
    ensures
        kept(r) == no_accounts(),
{
    DashMap::new()
}

/// `DashMap::insert`: afterwards the map holds the value under the key, and
/// under every other key what it held before.
#[verifier::external_body]
pub(crate) fn accounts_insert(m: &mut DashMap<u16, Account>, client: u16, account: Account)
    ensures
        kept(*final(m)) == kept(*old(m)).insert(client, account@),
{
    m.insert(client, account);
}

/// `DashMap::remove`: the value that the map held under the key, if any;
/// afterwards it holds nothing under that key, and under every other key what
/// it held before.
#[verifier::external_body]
pub(crate) fn accounts_remove(m: &mut DashMap<u16, Account>, client: u16) -> (r: Option<Account>)
    ensures
        kept(*final(m)) == kept(*old(m)).remove(client),
        r is Some <==> kept(*old(m)).contains_key(client),
        r is Some ==> r.unwrap()@ == kept(*old(m))[client],
{
    m.remove(&client).map(|pair| pair.1)
}

/// `DashMap::view` with [`Account::snapshot`]: the snapshot of the account
/// that the map holds under the key, if it holds one.
#[verifier::external_body]
pub(crate) fn accounts_snapshot(m: &DashMap<u16, Account>, client: u16) -> (r: Option<
    AccountSnapshot,
>)
    ensures
        r is Some <==> kept(*m).contains_key(client),
        r is Some ==> r.unwrap() == kept(*m)[client].snapshot(),
{
    m.view(&client, |_, account| account.snapshot())
}

/// `DashMap::iter`, keeping each entry's key: every key of the map once, in
/// no particular order.
#[verifier::external_body]
pub(crate) fn accounts_clients(m: &DashMap<u16, Account>) -> (r: Vec<u16>)
    ensures
        r@.no_duplicates(),
        forall|c: u16| r@.contains(c) <==> kept(*m).contains_key(c),
{
    m.iter().map(|entry| *entry.key()).collect()
}

} // verus!
