//! The subscription registry: which process owns which subscription, and the
//! handle by which that subscription's relay task is cancelled.
//!
//! A handle is a number that the driver chose for the task; the driver finds
//! the task again by it.  The registry is changed through `&mut` only, so no
//! reference into the table is alive while an entry is stored or removed.

use crate::bus::{ProcessId, ProcessIdView};
use crate::eth::EthError;
use dashmap::DashMap;
use vstd::prelude::*;

verus! {

/// `dashmap::DashMap`, carried as an opaque value.
#[verifier::external_type_specification]
#[verifier::external_body]
#[verifier::reject_recursive_types(K)]
#[verifier::reject_recursive_types(V)]
#[verifier::reject_recursive_types(S)]
pub struct ExDashMap<K, V, S>(DashMap<K, V, S>);

/// The key under which an entry is stored: the three parts of the owning
/// process's identity, then the subscription id that the owner chose.
pub type EntryKey = (String, String, String, u64);

/// What an `EntryKey` stands for in contracts.
pub type EntryKeyView = (Seq<char>, Seq<char>, Seq<char>, u64);

/// The table that backs the registry.
pub type Table = DashMap<EntryKey, u64>;

/// The entries that a table holds: each key with the handle stored under it.
pub uninterp spec fn stored(table: Table) -> Map<EntryKeyView, u64>;

/// `DashMap::new`: a table without entries.
#[verifier::external_body]
fn table_new() -> (table: Table)
    ensures
        stored(table) == (Map::<EntryKeyView, u64>::empty()),
{
    DashMap::new()
}

/// `DashMap::insert`: stores `handle` under `key`, in place of what was stored
/// there, and returns what it replaced.
#[verifier::external_body]
fn table_insert(table: &mut Table, key: EntryKey, handle: u64) -> (displaced: Option<u64>)
    ensures
        stored(*final(table)) == stored(*old(table)).insert(key@, handle),
        displaced == if stored(*old(table)).dom().contains(key@) {
            Some(stored(*old(table))[key@])
        } else {
            None
        },
{
    table.insert(key, handle)
}

/// `DashMap::remove`: takes the entry under `key` out of the table, if there
/// is one, and returns the handle that was stored there.
#[verifier::external_body]
fn table_remove(table: &mut Table, key: &EntryKey) -> (removed: Option<u64>)
    ensures
        stored(*final(table)) == stored(*old(table)).remove(key@),
        removed == if stored(*old(table)).dom().contains(key@) {
            Some(stored(*old(table))[key@])
        } else {
            None
        },
{
    table.remove(key).map(|entry| entry.1)
}

/// `DashMap::get`: the handle stored under `key`, if there is one.
#[verifier::external_body]
fn table_get(table: &Table, key: &EntryKey) -> (found: Option<u64>)
    ensures
        found == if stored(*table).dom().contains(key@) {
            Some(stored(*table)[key@])
        } else {
            None
        },
{
    table.get(key).map(|entry| *entry.value())
}

/// What identifies a subscription: the process that owns it and the id that
/// this process gave it.  The id alone does not, since two processes may pick
/// the same one.
#[derive(Debug, PartialEq, Eq)]
pub struct SubscriptionKey {
    pub owner: ProcessId,
    pub sub_id: u64,
}

pub struct SubscriptionKeyView {
    pub owner: ProcessIdView,
    pub sub_id: u64,
}

impl View for SubscriptionKey {
    type V = SubscriptionKeyView;

    open spec fn view(&self) -> SubscriptionKeyView {
        SubscriptionKeyView { owner: self.owner@, sub_id: self.sub_id }
    }
}

impl Clone for SubscriptionKey {
    fn clone(&self) -> (copy: Self)
        ensures
            copy@ == self@,
    {
        SubscriptionKey { owner: self.owner.clone(), sub_id: self.sub_id }
    }
}

impl SubscriptionKey {
    pub fn new(owner: ProcessId, sub_id: u64) -> (key: Self)
        ensures
            key@.owner == owner@,
            key@.sub_id == sub_id,
    {
        SubscriptionKey { owner, sub_id }
    }
}

/// The table key that stands for a subscription key.
pub open spec fn flat(key: SubscriptionKeyView) -> EntryKeyView {
    (key.owner.process_name, key.owner.package_name, key.owner.publisher_node, key.sub_id)
}

fn entry_key(key: &SubscriptionKey) -> (entry: EntryKey)
    ensures
        entry@ == flat(key@),
{
    (
        key.owner.process_name.clone(),
        key.owner.package_name.clone(),
        key.owner.publisher_node.clone(),
        key.sub_id,
    )
}

/// The registry of live subscriptions.
pub struct Registry {
    table: Table,
}

impl View for Registry {
    type V = Map<SubscriptionKeyView, u64>;

    /// The registered subscriptions, each with the handle of its relay task.
    closed spec fn view(&self) -> Map<SubscriptionKeyView, u64> {
        Map::new(
            |key: SubscriptionKeyView| stored(self.table).dom().contains(flat(key)),
            |key: SubscriptionKeyView| stored(self.table)[flat(key)],
        )
    }
}

impl Registry {
    /// A registry without subscriptions.
    pub fn new() -> (registry: Self)
        ensures
            registry@ == (Map::<SubscriptionKeyView, u64>::empty()),
    {
        let registry = Registry { table: table_new() };
        assert(registry@ =~= Map::<SubscriptionKeyView, u64>::empty());
        registry
    }

    /// Registers `handle` under `key`.  An entry that was there is replaced,
    /// and its handle is lost.
    pub fn insert(&mut self, key: SubscriptionKey, handle: u64)
        ensures
            final(self)@ == old(self)@.insert(key@, handle),
    {
        let entry = entry_key(&key);
        let _ = table_insert(&mut self.table, entry, handle);
        assert(self@ =~= old(self)@.insert(key@, handle));
    }

    /// Takes the entry under `key` out of the registry and returns its handle.
    /// Without such an entry nothing changes.
    pub fn remove(&mut self, key: &SubscriptionKey) -> (removed: Result<u64, EthError>)
        ensures
            match removed {
                Ok(handle) => old(self)@.dom().contains(key@) && handle == old(self)@[key@],
                Err(error) => !old(self)@.dom().contains(key@) && error@
                    is SubscriptionNotFound,
            },
            final(self)@ == old(self)@.remove(key@),
    {
        let entry = entry_key(key);
        let removed = table_remove(&mut self.table, &entry);
        assert(self@ =~= old(self)@.remove(key@));
        match removed {
            Some(handle) => Ok(handle),
            None => Err(EthError::SubscriptionNotFound),
        }
    }

    /// The handle registered under `key`.
    pub fn get(&self, key: &SubscriptionKey) -> (found: Option<u64>)
        ensures
            found == if self@.dom().contains(key@) {
                Some(self@[key@])
            } else {
                None
            },
    {
        let entry = entry_key(key);
        table_get(&self.table, &entry)
    }

    /// Whether a subscription is registered under `key`.
    pub fn contains(&self, key: &SubscriptionKey) -> (present: bool)
        ensures
            present == self@.dom().contains(key@),
    {
        self.get(key).is_some()
    }

    /// Takes the entry under `key` out of the registry if it still belongs to
    /// the task `handle`, and says whether it did.  A relay task that ends by
    /// itself calls this, so that no entry outlives its task, and no entry of
    /// a later subscription under the same key is lost.
    pub fn retire(&mut self, key: &SubscriptionKey, handle: u64) -> (retired: bool)
        ensures
            retired == (old(self)@.dom().contains(key@) && old(self)@[key@] == handle),
            final(self)@ == if retired {
                old(self)@.remove(key@)
            } else {
                old(self)@
            },
    {
        match self.get(key) {
            Some(current) => {
                if current == handle {
                    let _ = self.remove(key);
                    true
                } else {
                    false
                }
            },
            None => false,
        }
    }
}

} // verus!
