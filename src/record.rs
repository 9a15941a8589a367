//! Sample records for the serialisation comparison.
use std::collections::HashMap;
use vstd::prelude::*;
use vstd::std_specs::hash::obeys_key_model;

verus! {

/// A small flat record.
#[derive(Debug)]
pub struct Data {
    pub s: String,
    pub p: (u64, u64, u64),
}

/// `d` is the sample record.
pub open spec fn is_sample(d: Data) -> bool {
    d.s@ == "hello, world!"@ && d.p == (128u64, 512u64, 1024u64)
}

impl Data {
    /// The sample record: `"hello, world!"` and `(128, 512, 1024)`.
    pub fn sample() -> (r: Self)
        ensures
            is_sample(r),
    {
        Data { s: "hello, world!".to_owned(), p: (128, 512, 1024) }
    }

    /// `n` copies of the sample record.
    pub fn sample_vec(n: usize) -> (r: Vec<Self>)
        ensures
            r@.len() == n,
            forall|i: int| 0 <= i < n ==> is_sample(#[trigger] r@[i]),
    {
        let mut out: Vec<Data> = Vec::new();
        let mut i: usize = 0;
        while i < n
            invariant
                0 <= i <= n,
                out@.len() == i,
                forall|j: int| 0 <= j < i ==> is_sample(#[trigger] out@[j]),
            decreases n - i,
        {
            out.push(Data::sample());
            i = i + 1;
        }
        out
    }
}

/// A record of nested maps and vectors.
#[derive(Debug)]
pub struct ComplexData {
    pub deeply: HashMap<String, Vec<HashMap<String, u8>>>,
}

/// `m` is the innermost sample map: `value` → 4, `another` → 6, `yet_another` → 7.
pub open spec fn is_sample_counts(m: Map<String, u8>) -> bool {
    &&& forall|k: String| #[trigger] m.contains_key(k) ==> (k@ == "value"@ && m[k] == 4u8) || (k@
        == "another"@ && m[k] == 6u8) || (k@ == "yet_another"@ && m[k] == 7u8)
    &&& exists|k: String| #[trigger] m.contains_key(k) && k@ == "value"@
    &&& exists|k: String| #[trigger] m.contains_key(k) && k@ == "another"@
    &&& exists|k: String| #[trigger] m.contains_key(k) && k@ == "yet_another"@
}

/// `m` is the outer sample map: each of `nested`, `data`, `is` and `cool`
/// holds ten copies of the innermost sample map.
pub open spec fn is_sample_nested(m: Map<String, Vec<HashMap<String, u8>>>) -> bool {
    &&& forall|k: String| #[trigger] m.contains_key(k) ==> is_sample_key(k@) && m[k]@.len() == 10
        && forall|j: int| 0 <= j < 10 ==> is_sample_counts(#[trigger] m[k]@[j]@)
    &&& forall|t: Seq<char>| is_sample_key(t) ==> exists|k: String| #[trigger] m.contains_key(k)
        && k@ == t
}

/// `k` is one of the outer keys of the sample.
pub open spec fn is_sample_key(k: Seq<char>) -> bool {
    k == "nested"@ || k == "data"@ || k == "is"@ || k == "cool"@
}

fn sample_counts() -> (r: HashMap<String, u8>)
    ensures
        obeys_key_model::<String>() ==> is_sample_counts(r@),
{
    let mut m: HashMap<String, u8> = HashMap::new();
    let k1 = "value".to_owned();
    let k2 = "another".to_owned();
    let k3 = "yet_another".to_owned();
    let ghost (g1, g2, g3) = (k1, k2, k3);
    m.insert(k1, 4);
    m.insert(k2, 6);
    m.insert(k3, 7);
    proof {
        if obeys_key_model::<String>() {
            assert(m@.contains_key(g1));
            assert(m@.contains_key(g2));
            assert(m@.contains_key(g3));
            reveal_strlit("value");
            reveal_strlit("another");
            reveal_strlit("yet_another");
            assert(g1@.len() == 5);
            assert(g2@.len() == 7);
            assert(g3@.len() == 11);
        }
    }
    m
}

fn sample_copies(counts: &HashMap<String, u8>) -> (r: Vec<HashMap<String, u8>>)
    ensures
        r@.len() == 10,
        forall|j: int| 0 <= j < 10 ==> (#[trigger] r@[j])@ == counts@,
{
    let mut copies: Vec<HashMap<String, u8>> = Vec::new();
    let mut i: usize = 0;
    while i < 10
        invariant
            0 <= i <= 10,
            copies@.len() == i,
            forall|j: int| 0 <= j < i ==> (#[trigger] copies@[j])@ == counts@,
        decreases 10 - i,
    {
        copies.push(counts.clone());
        i = i + 1;
    }
    copies
}

impl ComplexData {
    /// The sample: under each of `nested`, `data`, `is` and `cool`, ten copies
    /// of the map `value` → 4, `another` → 6, `yet_another` → 7.
    pub fn sample() -> (r: Self)
        ensures
            obeys_key_model::<String>() ==> is_sample_nested(r.deeply@),
    {
        let counts = sample_counts();
        let v1 = sample_copies(&counts);
        let v2 = sample_copies(&counts);
        let v3 = sample_copies(&counts);
        let v4 = sample_copies(&counts);
        let mut deeply: HashMap<String, Vec<HashMap<String, u8>>> = HashMap::new();
        let k1 = "nested".to_owned();
        let k2 = "data".to_owned();
        let k3 = "is".to_owned();
        let k4 = "cool".to_owned();
        let ghost (g1, g2, g3, g4) = (k1, k2, k3, k4);
        deeply.insert(k1, v1);
        deeply.insert(k2, v2);
        deeply.insert(k3, v3);
        deeply.insert(k4, v4);
        proof {
            if obeys_key_model::<String>() {
                reveal_strlit("nested");
                reveal_strlit("data");
                reveal_strlit("is");
                reveal_strlit("cool");
                assert forall|k: String| #[trigger] deeply@.contains_key(k) implies is_sample_key(k@)
                    && deeply@[k]@.len() == 10 && forall|j: int|
                    0 <= j < 10 ==> is_sample_counts(#[trigger] deeply@[k]@[j]@) by {
                    assert(k == g1 || k == g2 || k == g3 || k == g4);
                }
                assert forall|t: Seq<char>| is_sample_key(t) implies exists|k: String| #[trigger]
                    deeply@.contains_key(k) && k@ == t by {
                    if t == g1@ {
                        assert(deeply@.contains_key(g1));
                    } else if t == g2@ {
                        assert(deeply@.contains_key(g2));
                    } else if t == g3@ {
                        assert(deeply@.contains_key(g3));
                    } else {
                        assert(deeply@.contains_key(g4));
                    }
                }
                assert(is_sample_nested(deeply@));
            }
        }
        ComplexData { deeply }
    }
}

} // verus!
