//! The sweep: every (backend, batch length, thread count) cell, and what a
//! cell needs before its measured region starts.
use crate::backend::{ConcurrentHashMap, Entries};
use crate::distributor::MutexIter;
use crate::keys::{NUM_KEYS, pool};
use crate::workload::{populate_map, with_keys};
use vstd::arithmetic::div_mod::lemma_fundamental_div_mod_converse;
use vstd::prelude::*;

verus! {

/// Key of every insert in a write benchmark.
pub const INSERT_KEY: &'static str = "hello";

/// Value of every insert in a write benchmark, and of every pool key after
/// the population phase of a read benchmark.
pub const VALUE: &'static str = "world";

/// The map implementations a sweep compares.
#[derive(Clone, Copy, Debug, PartialEq, Eq, Structural)]
pub enum Backend {
    /// One exclusive lock around a std hash table.
    Mutex,
    /// A sharded, lock-striped map (`dashmap`).
    Dash,
    /// An optimistic, lock-minimising map (`scc`).
    Scc,
}

/// One independently measured configuration.
#[derive(Clone, Copy, Debug, PartialEq, Eq, Structural)]
pub struct SweepCell {
    pub backend: Backend,
    /// Contract calls per measured iteration.
    pub len: usize,
    /// Worker threads; zero is the serial baseline.
    pub threads: usize,
}

/// Every backend, in sweep order.
pub fn backends() -> (r: Vec<Backend>)
    ensures
        r@ == seq![Backend::Mutex, Backend::Dash, Backend::Scc],
{
    vec![Backend::Mutex, Backend::Dash, Backend::Scc]
}

/// Thread counts of the sweep, starting with the serial baseline.
pub fn thread_counts() -> (r: Vec<usize>)
    ensures
        r@ == seq![0usize, 1, 2, 4, 8, 16],
{
    vec![0, 1, 2, 4, 8, 16]
}

/// Batch lengths of the sweep.
pub fn batch_lengths() -> (r: Vec<usize>)
    ensures
        r@ == seq![1usize, 2, 4, 8],
{
    vec![1, 2, 4, 8]
}

/// Cell `i` of the sweep over `bs` × `ls` × `ts`: backends vary slowest,
/// thread counts fastest.
pub open spec fn cell_at(bs: Seq<Backend>, ls: Seq<usize>, ts: Seq<usize>, i: int) -> SweepCell {
    SweepCell {
        backend: bs[(i / ts.len() as int) / ls.len() as int],
        len: ls[(i / ts.len() as int) % ls.len() as int],
        threads: ts[i % ts.len() as int],
    }
}

proof fn lemma_cell_index(bs: Seq<Backend>, ls: Seq<usize>, ts: Seq<usize>, b: int, l: int, t: int)
    requires
        0 <= b < bs.len(),
        0 <= l < ls.len(),
        0 <= t < ts.len(),
    ensures
        cell_at(bs, ls, ts, (b * ls.len() + l) * ts.len() + t) == (SweepCell {
            backend: bs[b],
            len: ls[l],
            threads: ts[t],
        }),
{
    let bl = b * ls.len() + l;
    lemma_fundamental_div_mod_converse(bl * ts.len() + t, ts.len() as int, bl, t);
    lemma_fundamental_div_mod_converse(bl, ls.len() as int, b, l);
}

/// Every cell of the sweep over `bs` × `ls` × `ts`, each exactly once.
pub fn sweep_cells(bs: &Vec<Backend>, ls: &Vec<usize>, ts: &Vec<usize>) -> (r: Vec<SweepCell>)
    requires
        bs@.len() * ls@.len() * ts@.len() <= usize::MAX,
    ensures
        r@.len() == bs@.len() * ls@.len() * ts@.len(),
        forall|i: int| 0 <= i < r@.len() ==> #[trigger] r@[i] == cell_at(bs@, ls@, ts@, i),
{
    let mut cells: Vec<SweepCell> = Vec::new();
    let mut b: usize = 0;
    while b < bs.len()
        invariant
            0 <= b <= bs@.len(),
            cells@.len() == b * ls@.len() * ts@.len(),
            forall|i: int| 0 <= i < cells@.len() ==> #[trigger] cells@[i] == cell_at(bs@, ls@, ts@, i),
        decreases bs@.len() - b,
    {
        let mut l: usize = 0;
        while l < ls.len()
            invariant
                0 <= b < bs@.len(),
                0 <= l <= ls@.len(),
                cells@.len() == (b * ls@.len() + l) * ts@.len(),
                forall|i: int| 0 <= i < cells@.len() ==> #[trigger] cells@[i] == cell_at(bs@, ls@, ts@, i),
            decreases ls@.len() - l,
        {
            let mut t: usize = 0;
            while t < ts.len()
                invariant
                    0 <= b < bs@.len(),
                    0 <= l < ls@.len(),
                    0 <= t <= ts@.len(),
                    cells@.len() == (b * ls@.len() + l) * ts@.len() + t,
                    forall|i: int| 0 <= i < cells@.len() ==> #[trigger] cells@[i] == cell_at(bs@, ls@, ts@, i),
                decreases ts@.len() - t,
            {
                proof {
                    lemma_cell_index(bs@, ls@, ts@, b as int, l as int, t as int);
                }
                cells.push(SweepCell { backend: bs[b], len: ls[l], threads: ts[t] });
                t = t + 1;
            }
            proof {
                assert((b * ls@.len() + l) * ts@.len() + ts@.len() == (b * ls@.len() + (l + 1)) * ts@.len()) by (nonlinear_arith);
            }
            l = l + 1;
        }
        proof {
            assert((b * ls@.len() + ls@.len()) * ts@.len() == (b + 1) * ls@.len() * ts@.len()) by (nonlinear_arith);
        }
        b = b + 1;
    }
    cells
}

/// Keys a cell draws per measured iteration: one batch for each worker
/// thread, and one batch for the serial baseline.
pub open spec fn draws_per_iteration(threads: nat, len: nat) -> nat {
    if threads == 0 { len } else { threads * len }
}

/// How many full measured iterations a pool of `pool_size` keys covers before
/// a draw fails.
pub fn max_full_iterations(pool_size: u64, threads: usize, len: usize) -> (r: u64)
    requires
        len > 0,
    ensures
        r == pool_size as nat / draws_per_iteration(threads as nat, len as nat),
{
    proof {
        assert(threads as nat * len as nat <= u128::MAX) by (nonlinear_arith)
            requires threads <= u64::MAX, len <= u64::MAX;
    }
    let per: u128 = if threads == 0 { len as u128 } else { threads as u128 * len as u128 };
    proof {
        assert(per as nat == draws_per_iteration(threads as nat, len as nat));
        assert(per > 0) by (nonlinear_arith)
            requires per == draws_per_iteration(threads as nat, len as nat), len > 0;
    }
    let r = pool_size as u128 / per;
    proof {
        assert(r <= pool_size) by (nonlinear_arith)
            requires r == pool_size as u128 / per, per > 0;
    }
    r as u64
}

/// Setup of a read-benchmark cell, outside its measured region: a fresh
/// backend holding `VALUE` under every key of the pool, and a distributor
/// over that pool.
pub fn prepare_read_cell<M: ConcurrentHashMap>() -> (r: (M, MutexIter<String>))
    ensures
        r.0.entries() == with_keys(Entries::empty(), pool(NUM_KEYS as nat), VALUE@),
        r.1.pool().len() == NUM_KEYS,
        forall|i: int| 0 <= i < NUM_KEYS ==> #[trigger] r.1.pool()[i]@ == pool(NUM_KEYS as nat)[i],
{
    let mut map = M::new();
    let keys = populate_map(&mut map, VALUE);
    let iter = MutexIter::new(keys);
    (map, iter)
}

} // verus!
