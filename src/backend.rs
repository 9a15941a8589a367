//! The capability contract that every benchmarked map backend satisfies.
use vstd::prelude::*;

verus! {

/// Contents of a map backend: key text to value text.
pub type Entries = Map<Seq<char>, Seq<char>>;

/// `r` is what a lookup of `key` in `m` yields: a copy of the stored value
/// when the key is present, nothing otherwise.
pub open spec fn lookup_result(m: Entries, key: Seq<char>, r: Option<String>) -> bool {
    match r {
        Some(v) => m.contains_key(key) && v@ == m[key],
        None => !m.contains_key(key),
    }
}

/// A map backend seen through the operations a benchmark performs on it.
///
/// Each backend synchronises concurrent calls in its own way (one lock,
/// sharded locks, optimistic reads); the contract below is what a caller
/// with exclusive access observes.
pub trait ConcurrentHashMap: Sized {
    /// The key-value pairs currently stored.
    spec fn entries(&self) -> Entries;

    /// A fresh, empty backend.
    fn new() -> (r: Self)
        ensures
            r.entries() == Entries::empty(),
    ;

    /// Inserts or overwrites `key`, returning the value it replaced, if any.
    fn insert(&mut self, key: String, val: String) -> (r: Option<String>)
        ensures
            final(self).entries() == old(self).entries().insert(key@, val@),
            lookup_result(old(self).entries(), key@, r),
    ;

    /// A copy of the value stored for `key`, if any.
    fn get(&self, key: &str) -> (r: Option<String>)
        ensures
            lookup_result(self.entries(), key@, r),
    ;
}

} // verus!
