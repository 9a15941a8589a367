//! What a benchmark does to a backend: the population phase, and the batches
//! of inserts and lookups that one measured iteration performs.
use crate::backend::{ConcurrentHashMap, Entries, lookup_result};
use crate::keys::{NUM_KEYS, lemma_pool_distinct, pool, pool_keys};
use vstd::prelude::*;

verus! {

/// `m` after storing `value` under every key of `keys`.
pub open spec fn with_keys(m: Entries, keys: Seq<Seq<char>>, value: Seq<char>) -> Entries {
    m.union_prefer_right(Map::new(|k: Seq<char>| keys.contains(k), |k: Seq<char>| value))
}

/// `m` after inserting the pairs of `pairs`, first to last.
pub open spec fn apply_inserts(m: Entries, pairs: Seq<(Seq<char>, Seq<char>)>) -> Entries
    decreases pairs.len(),
{
    if pairs.len() == 0 {
        m
    } else {
        let last = pairs.last();
        apply_inserts(m, pairs.drop_last()).insert(last.0, last.1)
    }
}

/// The value of the last pair in `pairs` whose key is `key`, if any.
pub open spec fn last_value(pairs: Seq<(Seq<char>, Seq<char>)>, key: Seq<char>) -> Option<
    Seq<char>,
>
    decreases pairs.len(),
{
    if pairs.len() == 0 {
        None
    } else if pairs.last().0 == key {
        Some(pairs.last().1)
    } else {
        last_value(pairs.drop_last(), key)
    }
}

/// The text view of a sequence of owned key-value pairs.
pub open spec fn pair_views(pairs: Seq<(String, String)>) -> Seq<(Seq<char>, Seq<char>)> {
    pairs.map_values(|p: (String, String)| (p.0@, p.1@))
}

/// Population phase of a read benchmark: stores `value` under each key of the
/// pool `1..=NUM_KEYS` and returns the pool, in order.
pub fn populate_map<M: ConcurrentHashMap>(map: &mut M, value: &str) -> (r: Vec<String>)
    ensures
        r@.len() == NUM_KEYS,
        forall|i: int| 0 <= i < NUM_KEYS ==> #[trigger] r@[i]@ == pool(NUM_KEYS as nat)[i],
        final(map).entries() == with_keys(old(map).entries(), pool(NUM_KEYS as nat), value@),
{
    let keys = pool_keys(NUM_KEYS);
    let ghost start = map.entries();
    let ghost all = pool(NUM_KEYS as nat);
    let mut i: usize = 0;
    while i < keys.len()
        invariant
            keys@.len() == NUM_KEYS,
            forall|j: int| 0 <= j < NUM_KEYS ==> #[trigger] keys@[j]@ == all[j],
            all == pool(NUM_KEYS as nat),
            0 <= i <= keys@.len(),
            map.entries() == with_keys(start, all.take(i as int), value@),
        decreases keys@.len() - i,
    {
        let key = keys[i].clone();
        let val = value.to_owned();
        map.insert(key, val);
        proof {
            let before = all.take(i as int);
            let after = all.take(i + 1);
            assert(after == before.push(all[i as int]));
            assert forall|k: Seq<char>| #[trigger] after.contains(k) == (before.contains(k) || k
                == all[i as int]) by {
                if after.contains(k) {
                    let j = choose|j: int| 0 <= j < after.len() && after[j] == k;
                    if j < i {
                        assert(before[j] == k);
                    }
                }
                if before.contains(k) {
                    let j = choose|j: int| 0 <= j < before.len() && before[j] == k;
                    assert(after[j] == k);
                }
                if k == all[i as int] {
                    assert(after[i as int] == k);
                }
            }
            assert(with_keys(start, after, value@) =~= with_keys(start, before, value@).insert(
                all[i as int],
                value@,
            ));
        }
        i = i + 1;
    }
    assert(all.take(NUM_KEYS as int) == all);
    keys
}

/// One measured iteration of a write benchmark: `len` inserts of the constant
/// pair `(key, value)`. Returns what each insert replaced.
pub fn insert_batch<M: ConcurrentHashMap>(map: &mut M, key: &str, value: &str, len: usize) -> (r:
    Vec<Option<String>>)
    ensures
        r@.len() == len,
        len == 0 ==> final(map).entries() == old(map).entries(),
        len > 0 ==> final(map).entries() == old(map).entries().insert(key@, value@),
        len > 0 ==> lookup_result(old(map).entries(), key@, r@[0]),
        forall|i: int| 0 < i < len ==> (#[trigger] r@[i] matches Some(v) && v@ == value@),
{
    let ghost start = map.entries();
    let mut out: Vec<Option<String>> = Vec::new();
    let mut i: usize = 0;
    while i < len
        invariant
            0 <= i <= len,
            out@.len() == i,
            i == 0 ==> map.entries() == start,
            i > 0 ==> map.entries() == start.insert(key@, value@),
            i > 0 ==> lookup_result(start, key@, out@[0]),
            forall|j: int| 0 < j < i ==> (#[trigger] out@[j] matches Some(v) && v@ == value@),
        decreases len - i,
    {
        let prev = map.insert(key.to_owned(), value.to_owned());
        out.push(prev);
        i = i + 1;
    }
    out
}

/// One measured iteration of a read benchmark: a lookup of each of `keys`,
/// in order. The backend is only read.
pub fn read_batch<M: ConcurrentHashMap>(map: &M, keys: &Vec<String>) -> (r: Vec<Option<String>>)
    ensures
        r@.len() == keys@.len(),
        forall|i: int| 0 <= i < keys@.len() ==> lookup_result(map.entries(), keys@[i]@, #[trigger] r@[i]),
{
    let mut out: Vec<Option<String>> = Vec::new();
    let mut i: usize = 0;
    while i < keys.len()
        invariant
            0 <= i <= keys@.len(),
            out@.len() == i,
            forall|j: int| 0 <= j < i ==> lookup_result(map.entries(), keys@[j]@, #[trigger] out@[j]),
        decreases keys@.len() - i,
    {
        let found = map.get(keys[i].as_str());
        out.push(found);
        i = i + 1;
    }
    out
}

/// Inserts each of `pairs` into `map`, first to last.
pub fn insert_all<M: ConcurrentHashMap>(map: &mut M, pairs: &Vec<(String, String)>)
    ensures
        final(map).entries() == apply_inserts(old(map).entries(), pair_views(pairs@)),
{
    let ghost start = map.entries();
    let mut i: usize = 0;
    while i < pairs.len()
        invariant
            0 <= i <= pairs@.len(),
            map.entries() == apply_inserts(start, pair_views(pairs@).take(i as int)),
        decreases pairs@.len() - i,
    {
        let key = pairs[i].0.clone();
        let val = pairs[i].1.clone();
        map.insert(key, val);
        proof {
            let views = pair_views(pairs@);
            assert(views.take(i + 1).drop_last() == views.take(i as int));
        }
        i = i + 1;
    }
    assert(pair_views(pairs@).take(pairs@.len() as int) == pair_views(pairs@));
}

/// Round trip: after a sequence of inserts into any map, each key holds the
/// value of the last insert of that key, and keys never inserted keep what
/// they held before.
pub proof fn lemma_round_trip(m: Entries, pairs: Seq<(Seq<char>, Seq<char>)>, key: Seq<char>)
    ensures
        last_value(pairs, key) matches Some(v) ==> apply_inserts(m, pairs).contains_key(key)
            && apply_inserts(m, pairs)[key] == v,
        last_value(pairs, key) is None ==> apply_inserts(m, pairs).contains_key(key)
            == m.contains_key(key) && apply_inserts(m, pairs)[key] == m[key],
    decreases pairs.len(),
{
    if pairs.len() > 0 {
        lemma_round_trip(m, pairs.drop_last(), key);
    }
}

/// A lookup after a sequence of inserts finds, for every inserted key, the
/// value of its last insert, whichever backend answers it.
pub proof fn lemma_get_after_inserts(
    pairs: Seq<(Seq<char>, Seq<char>)>,
    key: Seq<char>,
    r: Option<String>,
)
    requires
        lookup_result(apply_inserts(Entries::empty(), pairs), key, r),
    ensures
        last_value(pairs, key) matches Some(v) ==> (r matches Some(x) && x@ == v),
        last_value(pairs, key) is None ==> r is None,
{
    lemma_round_trip(Entries::empty(), pairs, key);
}

/// After the population phase of an empty map, the map holds exactly the
/// keys of the pool, one per pool entry, each with the population value.
/// Lookups take the backend by shared reference, so a read sweep afterwards
/// leaves these entries, and their count, as they are.
pub proof fn lemma_populated_count(count: nat, value: Seq<char>)
    ensures
        with_keys(Entries::empty(), pool(count), value).dom() == pool(count).to_set(),
        with_keys(Entries::empty(), pool(count), value).len() == count,
        forall|k: Seq<char>| #[trigger] pool(count).contains(k) ==> with_keys(Entries::empty(), pool(count), value)[k] == value,
{
    let m = with_keys(Entries::empty(), pool(count), value);
    assert(m.dom() =~= pool(count).to_set());
    lemma_pool_distinct(count);
    assert(pool(count).no_duplicates());
    pool(count).unique_seq_to_set();
}

} // verus!
