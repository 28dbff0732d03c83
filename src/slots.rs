//! The pool of host drawable slots, one per primitive of the latest frame.

use vstd::prelude::*;

verus! {

/// How many slots must be created so that a pool of `len` slots can hold
/// `n` primitives.
pub open spec fn missing(len: nat, n: nat) -> nat {
    if n > len {
        (n - len) as nat
    } else {
        0
    }
}

/// The pool after resizing it to `n` slots: the first `n` slots stay, and
/// when the pool is too small the `fresh` slots are added at its end.
pub open spec fn resized(pool: Seq<u64>, n: nat, fresh: Seq<u64>) -> Seq<u64> {
    if n <= pool.len() {
        pool.take(n as int)
    } else {
        pool + fresh
    }
}

/// The slots that resizing `pool` to `n` slots destroys, last created first.
pub open spec fn released(pool: Seq<u64>, n: nat) -> Seq<u64> {
    if n < pool.len() {
        Seq::new((pool.len() - n) as nat, |i: int| pool[pool.len() - 1 - i])
    } else {
        Seq::empty()
    }
}

/// A pool after a run of ticks, each giving its primitive count and the
/// slots created for it.
pub open spec fn after_ticks(pool: Seq<u64>, ticks: Seq<(nat, Seq<u64>)>) -> Seq<u64>
    decreases ticks.len(),
{
    if ticks.len() == 0 {
        pool
    } else {
        let before = after_ticks(pool, ticks.drop_last());
        resized(before, ticks.last().0, ticks.last().1)
    }
}

/// Each tick of the run was given exactly the slots that it was missing.
pub open spec fn ticks_supplied(pool: Seq<u64>, ticks: Seq<(nat, Seq<u64>)>) -> bool
    decreases ticks.len(),
{
    if ticks.len() == 0 {
        true
    } else {
        let before = after_ticks(pool, ticks.drop_last());
        &&& ticks_supplied(pool, ticks.drop_last())
        &&& ticks.last().1.len() == missing(before.len(), ticks.last().0)
    }
}

/// After any run of ticks, the pool holds as many slots as the last tick
/// had primitives, whatever counts came before.
pub proof fn lemma_pool_follows_last_tick(pool: Seq<u64>, ticks: Seq<(nat, Seq<u64>)>)
    requires
        ticks.len() > 0,
        ticks_supplied(pool, ticks),
    ensures
        after_ticks(pool, ticks).len() == ticks.last().0,
{
}

/// The drawable slots of the host, in drawing order.
pub struct SlotPool {
    slots: Vec<u64>,
}

impl View for SlotPool {
    type V = Seq<u64>;

    closed spec fn view(&self) -> Seq<u64> {
        self.slots@
    }
}

impl SlotPool {
    /// A pool without slots.
    pub fn new() -> (r: Self)
        ensures
            r@ == Seq::<u64>::empty(),
    {
        SlotPool { slots: Vec::new() }
    }

    /// The number of slots.
    pub fn len(&self) -> (r: usize)
        ensures
            r == self@.len(),
    {
        self.slots.len()
    }

    /// The slot at drawing position `i`.
    pub fn slot(&self, i: usize) -> (r: u64)
        requires
            i < self@.len(),
        ensures
            r == self@[i as int],
    {
        self.slots[i]
    }

    /// How many slots must be created before resizing to `n` slots.
    pub fn slots_missing(&self, n: usize) -> (r: usize)
        ensures
            r == missing(self@.len(), n as nat),
    {
        if n > self.slots.len() {
            n - self.slots.len()
        } else {
            0
        }
    }

    /// Resizes the pool to `n` slots. A pool that is too small takes the
    /// `fresh` slots at its end; one that is too large gives up its last
    /// slots, which are returned last created first. The slots that stay
    /// keep their positions.
    pub fn resize(&mut self, n: usize, fresh: Vec<u64>) -> (r: Vec<u64>)
        requires
            fresh@.len() == missing(old(self)@.len(), n as nat),
        ensures
            final(self)@ == resized(old(self)@, n as nat, fresh@),
            r@ == released(old(self)@, n as nat),
            final(self)@.len() == n,
    {
        let mut freed: Vec<u64> = Vec::new();
        if n > self.slots.len() {
            let mut fresh = fresh;
            self.slots.append(&mut fresh);
        } else {
            let ghost before = self.slots@;
            while self.slots.len() > n
                invariant
                    n <= self.slots@.len() <= before.len(),
                    self.slots@ == before.take(self.slots@.len() as int),
                    freed@ == Seq::new(
                        (before.len() - self.slots@.len()) as nat,
                        |i: int| before[before.len() - 1 - i],
                    ),
                decreases self.slots@.len(),
            {
                let s = self.slots.pop().unwrap();
                freed.push(s);
                assert(freed@ =~= Seq::new(
                    (before.len() - self.slots@.len()) as nat,
                    |i: int| before[before.len() - 1 - i],
                ));
                assert(self.slots@ =~= before.take(self.slots@.len() as int));
            }
            assert(freed@ =~= released(before, n as nat));
        }
        freed
    }

    /// Empties the pool, returning every slot, last created first.
    pub fn release_all(&mut self) -> (r: Vec<u64>)
        ensures
            final(self)@ == Seq::<u64>::empty(),
            r@ == released(old(self)@, 0),
    {
        let r = self.resize(0, Vec::new());
        assert(self@ =~= Seq::<u64>::empty());
        r
    }
}

} // verus!
