//! The cross-thread key distributor: one cursor over a finite key pool,
//! handing out each key at most once.
use std::collections::VecDeque;
use vstd::prelude::*;
use vstd::rwlock::{RwLock, RwLockPredicate};

verus! {

/// A draw asked for more keys than the pool had left.
#[derive(Debug, PartialEq, Eq, Structural)]
pub enum DistributorError {
    /// The pool ran out: it was too small for the number of draws configured.
    Exhausted,
}

/// A plain sequential cursor over a finite pool: what is left to hand out,
/// in pool order.
pub struct KeyCursor<T> {
    rest: VecDeque<T>,
}

impl<T> View for KeyCursor<T> {
    type V = Seq<T>;

    closed spec fn view(&self) -> Seq<T> {
        self.rest@
    }
}

impl<T> KeyCursor<T> {
    /// A cursor at the start of `items`.
    pub fn new(items: Vec<T>) -> (r: Self)
        ensures
            r@ == items@,
    {
        let ghost all = items@;
        let mut items = items;
        let mut rest: VecDeque<T> = VecDeque::new();
        while items.len() > 0
            invariant
                all == items@ + rest@,
            decreases items@.len(),
        {
            let item = items.pop().unwrap();
            rest.push_front(item);
            proof {
                assert(all == items@ + rest@);
            }
        }
        assert(items@ + rest@ == rest@);
        KeyCursor { rest }
    }

    /// Hands out the next key of the pool, or nothing once it is exhausted.
    pub fn next(&mut self) -> (r: Option<T>)
        ensures
            old(self)@.len() == 0 ==> r is None && final(self)@ == old(self)@,
            old(self)@.len() > 0 ==> r == Some(old(self)@[0]) && final(self)@ == old(self)@.drop_first(),
    {
        self.rest.pop_front()
    }

    /// Hands out the next `count` keys, in pool order; fails without drawing
    /// anything when fewer than `count` are left.
    pub fn draw(&mut self, count: usize) -> (r: Result<Vec<T>, DistributorError>)
        ensures
            count <= old(self)@.len() ==> (r matches Ok(keys) && keys@ == old(self)@.take(
                count as int,
            )),
            count <= old(self)@.len() ==> final(self)@ == old(self)@.skip(count as int),
            count > old(self)@.len() ==> r == Err::<Vec<T>, DistributorError>(DistributorError::Exhausted)
                && final(self)@ == old(self)@,
    {
        if count > self.rest.len() {
            return Err(DistributorError::Exhausted);
        }
        let ghost start = self@;
        let mut keys: Vec<T> = Vec::new();
        let mut i: usize = 0;
        while i < count
            invariant
                count <= start.len(),
                0 <= i <= count,
                keys@ == start.take(i as int),
                self@ == start.skip(i as int),
            decreases count - i,
        {
            let key = self.rest.pop_front().unwrap();
            keys.push(key);
            proof {
                assert(start.take(i + 1) == start.take(i as int).push(start[i as int]));
                assert(start.skip(i + 1) == start.skip(i as int).drop_first());
            }
            i = i + 1;
        }
        Ok(keys)
    }
}

/// The contents a shared cursor may hold: what is left of `pool`, a suffix of it.
pub struct SuffixOf<T> {
    pub pool: Ghost<Seq<T>>,
}

/// `rest` is what is left of `pool` after some keys were handed out from its front.
pub open spec fn is_suffix<T>(pool: Seq<T>, rest: Seq<T>) -> bool {
    rest.len() <= pool.len() && rest == pool.skip(pool.len() - rest.len())
}

impl<T> RwLockPredicate<KeyCursor<T>> for SuffixOf<T> {
    open spec fn inv(self, v: KeyCursor<T>) -> bool {
        is_suffix(self.pool@, v@)
    }
}

/// A key cursor shared by racing worker threads: each draw happens under
/// one exclusive lock, so no two draws see the same position.
pub struct MutexIter<T> {
    iter: RwLock<KeyCursor<T>, SuffixOf<T>>,
}

impl<T> MutexIter<T> {
    /// The pool this distributor hands out keys from.
    pub closed spec fn pool(&self) -> Seq<T> {
        self.iter.pred().pool@
    }

    /// A distributor at the start of `items`.
    pub fn new(items: Vec<T>) -> (r: Self)
        ensures
            r.pool() == items@,
    {
        let ghost pool = items@;
        let cursor = KeyCursor::new(items);
        assert(pool.skip(0) == pool);
        let iter = RwLock::new(cursor, Ghost(SuffixOf { pool: Ghost(pool) }));
        MutexIter { iter }
    }

    /// Hands out a key of the pool that no earlier draw returned, or nothing
    /// once the pool is exhausted.
    pub fn next(&self) -> (r: Option<T>)
        ensures
            r matches Some(k) ==> self.pool().contains(k),
    {
        let (mut cursor, handle) = self.iter.acquire_write();
        let ghost pool = self.pool();
        let ghost before = cursor@;
        let r = cursor.next();
        proof {
            if before.len() > 0 {
                let p = pool.len() - before.len();
                assert(before[0] == pool[p]);
                assert(cursor@ =~= pool.skip(pool.len() - cursor@.len()));
            }
        }
        handle.release_write(cursor);
        r
    }

    /// Hands out `count` consecutive keys of the pool under one hold of the
    /// lock, or fails with `Exhausted` when fewer than `count` are left.
    pub fn draw(&self, count: usize) -> (r: Result<Vec<T>, DistributorError>)
        ensures
            r matches Ok(keys) ==> exists|p: int|
                0 <= p && p + count <= self.pool().len() && keys@ == #[trigger] self.pool().subrange(
                    p,
                    p + count,
                ),
    {
        let (mut cursor, handle) = self.iter.acquire_write();
        let ghost pool = self.pool();
        let ghost before = cursor@;
        let r = cursor.draw(count);
        proof {
            let p = pool.len() - before.len();
            if count <= before.len() {
                assert(cursor@ =~= pool.skip(pool.len() - cursor@.len()));
                assert(before.take(count as int) =~= pool.subrange(p, p + count));
            }
        }
        handle.release_write(cursor);
        r
    }
}

/// What the draw numbered `i` (from zero) of a fresh cursor over `pool` hands out.
pub open spec fn nth_draw<T>(pool: Seq<T>, i: nat) -> Option<T> {
    if i < pool.len() {
        Some(pool[i as int])
    } else {
        None
    }
}

/// What is left of `pool` after `i` draws.
pub open spec fn left_after<T>(pool: Seq<T>, i: nat) -> Seq<T> {
    if i < pool.len() {
        pool.skip(i as int)
    } else {
        Seq::empty()
    }
}

/// Successive draws walk the pool in order: a cursor that has made `i`
/// draws, drawing once more as `KeyCursor::next` does, hands out
/// `nth_draw(pool, i)` and is left as after `i + 1` draws. In particular
/// the draw numbered `pool.len()` fails.
pub proof fn lemma_next_draw<T>(pool: Seq<T>, i: nat, after: Seq<T>, r: Option<T>)
    requires
        left_after(pool, i).len() == 0 ==> r is None && after == left_after(pool, i),
        left_after(pool, i).len() > 0 ==> r == Some(left_after(pool, i)[0]) && after == left_after(
            pool,
            i,
        ).drop_first(),
    ensures
        r == nth_draw(pool, i),
        after == left_after(pool, i + 1),
{
    if i < pool.len() {
        if i + 1 < pool.len() {
            assert(after =~= pool.skip((i + 1) as int));
        } else {
            assert(after =~= Seq::<T>::empty());
        }
    }
}

/// Up to the size of a pool without duplicates, the draws hand out pairwise
/// distinct keys, each a member of the pool; every later draw fails.
pub proof fn lemma_draws_distinct<T>(pool: Seq<T>)
    requires
        pool.no_duplicates(),
    ensures
        forall|i: nat, j: nat|
            i < j < pool.len() ==> #[trigger] nth_draw(pool, i) != #[trigger] nth_draw(pool, j),
        forall|i: nat| i < pool.len() ==> (#[trigger] nth_draw(pool, i) matches Some(k) && pool.contains(k)),
        forall|i: nat| i >= pool.len() ==> #[trigger] nth_draw(pool, i) is None,
{
    assert forall|i: nat| i < pool.len() implies (#[trigger] nth_draw(pool, i) matches Some(k)
        && pool.contains(k)) by {
        assert(pool[i as int] == pool[i as int]);
    }
}

} // verus!
