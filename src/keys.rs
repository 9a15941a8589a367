//! Deterministic key generation: decimal text of positive integers.
use vstd::prelude::*;

verus! {

/// Size of the finite key pool used by read benchmarks.
pub const NUM_KEYS: u64 = 5000;

/// The character for a single decimal digit.
pub open spec fn digit_char(d: nat) -> char {
    if d == 0 { '0' }
    else if d == 1 { '1' }
    else if d == 2 { '2' }
    else if d == 3 { '3' }
    else if d == 4 { '4' }
    else if d == 5 { '5' }
    else if d == 6 { '6' }
    else if d == 7 { '7' }
    else if d == 8 { '8' }
    else { '9' }
}

/// Decimal text of `n`, most significant digit first, without leading zeros.
pub open spec fn decimal(n: nat) -> Seq<char>
    decreases n,
{
    if n < 10 {
        seq![digit_char(n)]
    } else {
        decimal(n / 10).push(digit_char(n % 10))
    }
}

/// The key pool of a read benchmark: the decimal text of `1..=count`, in order.
pub open spec fn pool(count: nat) -> Seq<Seq<char>> {
    Seq::new(count, |i: int| decimal((i + 1) as nat))
}

proof fn lemma_digit_char_injective(a: nat, b: nat)
    requires
        a < 10,
        b < 10,
        digit_char(a) == digit_char(b),
    ensures
        a == b,
{
}

/// Decimal text is never empty, and has a single character exactly below ten.
pub proof fn lemma_decimal_len(n: nat)
    ensures
        decimal(n).len() >= 1,
        (decimal(n).len() == 1) == (n < 10),
    decreases n,
{
    if n >= 10 {
        lemma_decimal_len(n / 10);
    }
}

/// Distinct numbers have distinct decimal texts.
pub proof fn lemma_decimal_injective(a: nat, b: nat)
    requires
        decimal(a) == decimal(b),
    ensures
        a == b,
    decreases a,
{
    lemma_decimal_len(a);
    lemma_decimal_len(b);
    if a < 10 && b < 10 {
        assert(decimal(a)[0] == digit_char(a));
        assert(decimal(b)[0] == digit_char(b));
        lemma_digit_char_injective(a, b);
    } else if a >= 10 && b >= 10 {
        let da = decimal(a);
        let db = decimal(b);
        assert(da.last() == digit_char(a % 10));
        assert(db.last() == digit_char(b % 10));
        lemma_digit_char_injective(a % 10, b % 10);
        assert(da.drop_last() == decimal(a / 10));
        assert(db.drop_last() == decimal(b / 10));
        lemma_decimal_injective(a / 10, b / 10);
    }
}

/// The keys of a pool are pairwise distinct.
pub proof fn lemma_pool_distinct(count: nat)
    ensures
        forall|i: int, j: int|
            0 <= i < count && 0 <= j < count && i != j ==> pool(count)[i] != pool(count)[j],
{
    assert forall|i: int, j: int|
        0 <= i < count && 0 <= j < count && i != j implies pool(count)[i] != pool(count)[j] by {
        if pool(count)[i] == pool(count)[j] {
            lemma_decimal_injective((i + 1) as nat, (j + 1) as nat);
        }
    }
}

/// Relies on `u64::to_string` (std's `Display` for integers): the decimal text of `n`.
#[verifier::external_body]
fn decimal_text(n: u64) -> (r: String)
    ensures
        r@ == decimal(n as nat),
{
    n.to_string()
}

/// The key pool of a read benchmark, built anew: the decimal texts of `1..=count`.
pub fn pool_keys(count: u64) -> (r: Vec<String>)
    requires
        count < u64::MAX,
    ensures
        r@.len() == count,
        forall|i: int| 0 <= i < count ==> #[trigger] r@[i]@ == pool(count as nat)[i],
{
    let mut keys: Vec<String> = Vec::new();
    let mut n: u64 = 1;
    while n <= count
        invariant
            count < u64::MAX,
            1 <= n <= count + 1,
            keys@.len() == n - 1,
            forall|i: int| 0 <= i < n - 1 ==> #[trigger] keys@[i]@ == decimal((i + 1) as nat),
        decreases count + 1 - n,
    {
        let key = decimal_text(n);
        keys.push(key);
        n = n + 1;
    }
    keys
}

} // verus!
