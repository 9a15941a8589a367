//! The sharded backend: `dashmap::DashMap`.
use crate::backend::{ConcurrentHashMap, Entries, lookup_result};
use vstd::prelude::*;

verus! {

#[verifier::external_type_specification]
#[verifier::external_body]
#[verifier::reject_recursive_types(K)]
#[verifier::reject_recursive_types(V)]
#[verifier::reject_recursive_types(S)]
pub struct ExDashMap<K, V, S>(dashmap::DashMap<K, V, S>);

/// The key-value pairs held by a `DashMap`.
pub uninterp spec fn dash_entries(m: dashmap::DashMap<String, String>) -> Map<Seq<char>, Seq<char>>;

/// Relies on `DashMap::new`: a map with no entries.
#[verifier::external_body]
fn dash_new() -> (r: dashmap::DashMap<String, String>)
    ensures
        dash_entries(r) == Entries::empty(),
{
    dashmap::DashMap::new()
}

/// Relies on `DashMap::insert`: stores the pair and returns the value it replaced.
#[verifier::external_body]
fn dash_insert(m: &mut dashmap::DashMap<String, String>, key: String, val: String) -> (r: Option<
    String,
>)
    ensures
        dash_entries(*final(m)) == dash_entries(*old(m)).insert(key@, val@),
        lookup_result(dash_entries(*old(m)), key@, r),
{
    dashmap::DashMap::insert(&*m, key, val)
}

/// Relies on `DashMap::get`: the entry for `key`, whose value is copied out.
#[verifier::external_body]
fn dash_get(m: &dashmap::DashMap<String, String>, key: &str) -> (r: Option<String>)
    ensures
        lookup_result(dash_entries(*m), key@, r),
{
    dashmap::DashMap::get(m, key).as_deref().cloned()
}

impl ConcurrentHashMap for dashmap::DashMap<String, String> {
    open spec fn entries(&self) -> Entries {
        dash_entries(*self)
    }

    fn new() -> (r: Self) {
        dash_new()
    }

    fn insert(&mut self, key: String, val: String) -> (r: Option<String>) {
        dash_insert(self, key, val)
    }

    fn get(&self, key: &str) -> (r: Option<String>) {
        dash_get(self, key)
    }
}

} // verus!
