//! The coarse-grained backend: one exclusive lock around a std hash table.
use crate::backend::{ConcurrentHashMap, Entries, lookup_result};
use vstd::prelude::*;

verus! {

#[verifier::external_type_specification]
#[verifier::external_body]
#[verifier::reject_recursive_types(T)]
pub struct ExMutex<T: ?Sized>(std::sync::Mutex<T>);

/// A std hash table behind a single exclusive lock.
pub type MutexHashMap = std::sync::Mutex<std::collections::HashMap<String, String>>;

/// The key-value pairs held by the table inside the lock.
pub uninterp spec fn mutex_entries(m: MutexHashMap) -> Map<Seq<char>, Seq<char>>;

/// Relies on `Mutex::default`: an unlocked mutex around an empty `HashMap`.
#[verifier::external_body]
fn mutex_new() -> (r: MutexHashMap)
    ensures
        mutex_entries(r) == Entries::empty(),
{
    std::sync::Mutex::default()
}

/// Relies on `Mutex::lock` and `HashMap::insert`: under the lock, stores the
/// pair and returns the value it replaced. A poisoned lock still guards a
/// table, which is used as it stands.
#[verifier::external_body]
fn mutex_insert(m: &mut MutexHashMap, key: String, val: String) -> (r: Option<String>)
    ensures
        mutex_entries(*final(m)) == mutex_entries(*old(m)).insert(key@, val@),
        lookup_result(mutex_entries(*old(m)), key@, r),
{
    let mut table = m.lock().unwrap_or_else(std::sync::PoisonError::into_inner);
    table.insert(key, val)
}

/// Relies on `Mutex::lock` and `HashMap::get`: under the lock, copies out the
/// value stored for `key`.
#[verifier::external_body]
fn mutex_get(m: &MutexHashMap, key: &str) -> (r: Option<String>)
    ensures
        lookup_result(mutex_entries(*m), key@, r),
{
    let table = m.lock().unwrap_or_else(std::sync::PoisonError::into_inner);
    table.get(key).cloned()
}

impl ConcurrentHashMap for MutexHashMap {
    open spec fn entries(&self) -> Entries {
        mutex_entries(*self)
    }

    fn new() -> (r: Self) {
        mutex_new()
    }

    fn insert(&mut self, key: String, val: String) -> (r: Option<String>) {
        mutex_insert(self, key, val)
    }

    fn get(&self, key: &str) -> (r: Option<String>) {
        mutex_get(self, key)
    }
}

} // verus!
