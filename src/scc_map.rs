//! The optimistic, lock-minimising backend: `scc::HashMap`.
use crate::backend::{ConcurrentHashMap, Entries, lookup_result};
use vstd::prelude::*;

verus! {

#[verifier::external_type_specification]
#[verifier::external_body]
#[verifier::reject_recursive_types(K)]
#[verifier::reject_recursive_types(V)]
#[verifier::reject_recursive_types(H)]
pub struct ExSccHashMap<K, V, H: std::hash::BuildHasher>(scc::HashMap<K, V, H>);

/// The key-value pairs held by an `scc::HashMap`.
pub uninterp spec fn scc_entries(m: scc::HashMap<String, String>) -> Map<Seq<char>, Seq<char>>;

/// Relies on `scc::HashMap::new`: a map with no entries.
#[verifier::external_body]
fn scc_new() -> (r: scc::HashMap<String, String>)
    ensures
        scc_entries(r) == Entries::empty(),
{
    scc::HashMap::new()
}

/// Relies on `scc::HashMap::upsert_sync`: stores the pair and returns the value it replaced.
#[verifier::external_body]
fn scc_upsert(m: &mut scc::HashMap<String, String>, key: String, val: String) -> (r: Option<
    String,
>)
    ensures
        scc_entries(*final(m)) == scc_entries(*old(m)).insert(key@, val@),
        lookup_result(scc_entries(*old(m)), key@, r),
{
    scc::HashMap::upsert_sync(&*m, key, val)
}

/// Relies on `scc::HashMap::get_sync`: the entry for `key`, whose value is copied out.
#[verifier::external_body]
fn scc_get(m: &scc::HashMap<String, String>, key: &str) -> (r: Option<String>)
    ensures
        lookup_result(scc_entries(*m), key@, r),
{
    scc::HashMap::get_sync(m, key).as_deref().cloned()
}

impl ConcurrentHashMap for scc::HashMap<String, String> {
    open spec fn entries(&self) -> Entries {
        scc_entries(*self)
    }

    fn new() -> (r: Self) {
        scc_new()
    }

    fn insert(&mut self, key: String, val: String) -> (r: Option<String>) {
        scc_upsert(self, key, val)
    }

    fn get(&self, key: &str) -> (r: Option<String>) {
        scc_get(self, key)
    }
}

} // verus!
