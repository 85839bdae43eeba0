//! A bounded allocator of small unique integer ids.
//!
//! Ids are dense handles in `[0, capacity)`. The interrupt registry mints its
//! handler ids here, but the allocator is a reusable primitive for any
//! subsystem that needs small unique handles. All operations run to
//! completion without blocking, so they are safe to call from interrupt
//! context.

use vstd::prelude::*;
use vstd::set_lib::lemma_int_range;
use vstd::set_lib::lemma_len_subset;
use vstd::set_lib::set_int_range;

verus! {

/// Returned by [`IdAllocator::allocate`] when every id in the pool is in use.
#[derive(Clone, Copy, Debug, PartialEq, Eq, Structural)]
pub struct ExhaustedError;

/// Returned by [`IdAllocator::release`] for an id that is out of range or not
/// currently allocated. A double free is reported, never silently ignored:
/// it indicates a caller bug.
#[derive(Clone, Copy, Debug, PartialEq, Eq, Structural)]
pub struct InvalidIdError;

/// Hands out the smallest free id from the bounded pool `[0, capacity)`.
pub struct IdAllocator {
    /// `used[id]` holds exactly when `id` is currently allocated.
    used: Vec<bool>,
}

impl IdAllocator {
    /// The set of currently allocated ("live") ids.
    pub closed spec fn live(self) -> Set<int> {
        Set::new(|i: int| 0 <= i < self.used@.len() && self.used@[i])
    }

    /// Total number of ids in the pool.
    pub closed spec fn capacity_spec(self) -> nat {
        self.used@.len()
    }

    /// Every id in the pool is allocated.
    pub closed spec fn is_full(self) -> bool {
        forall|i: int| 0 <= i < self.used@.len() ==> self.used@[i]
    }

    /// Creates an allocator with `capacity` free ids and none allocated.
    pub fn new(capacity: usize) -> (r: IdAllocator)
        ensures
            r.capacity_spec() == capacity,
            r.live() == Set::<int>::empty(),
    {
        let mut used: Vec<bool> = Vec::new();
        let mut i: usize = 0;
        while i < capacity
            invariant
                i <= capacity,
                used@.len() == i,
                forall|j: int| 0 <= j < i ==> !used@[j],
            decreases capacity - i,
        {
            used.push(false);
            i += 1;
        }
        let r = IdAllocator { used };
        proof {
            assert(r.live() =~= Set::<int>::empty());
        }
        r
    }

    /// Number of ids in the pool.
    pub fn capacity(&self) -> (r: usize)
        ensures
            r == self.capacity_spec(),
    {
        self.used.len()
    }

    /// Whether `id` is currently allocated.
    pub fn is_allocated(&self, id: usize) -> (r: bool)
        ensures
            r == self.live().contains(id as int),
    {
        id < self.used.len() && self.used[id]
    }

    /// Returns the smallest free id and marks it allocated; fails exactly
    /// when all ids are in use. An id handed out here is not handed out
    /// again until it has been released.
    pub fn allocate(&mut self) -> (r: Result<usize, ExhaustedError>)
        ensures
            final(self).capacity_spec() == old(self).capacity_spec(),
            (r is Err) <==> old(self).is_full(),
            (r is Err) <==> old(self).live().len() == old(self).capacity_spec(),
            match r {
                Ok(id) => {
                    &&& id < old(self).capacity_spec()
                    &&& !old(self).live().contains(id as int)
                    &&& forall|j: int| 0 <= j < id ==> old(self).live().contains(j)
                    &&& final(self).live() == old(self).live().insert(id as int)
                },
                Err(e) => {
                    &&& *final(self) == *old(self)
                    &&& e == ExhaustedError
                },
            },
    {
        let n = self.used.len();
        let mut i: usize = 0;
        while i < n
            invariant
                *self == *old(self),
                n == self.used@.len(),
                i <= n,
                forall|j: int| 0 <= j < i ==> self.used@[j],
            decreases n - i,
        {
            if !self.used[i] {
                self.used[i] = true;
                proof {
                    assert(!old(self).is_full());
                    old(self).lemma_full_iff_live_len();
                    assert(self.live() =~= old(self).live().insert(i as int));
                }
                return Ok(i);
            }
            i += 1;
        }
        proof {
            old(self).lemma_full_iff_live_len();
        }
        Err(ExhaustedError)
    }

    /// Marks `id` free again; fails exactly when `id` is out of range or not
    /// currently allocated.
    pub fn release(&mut self, id: usize) -> (r: Result<(), InvalidIdError>)
        ensures
            final(self).capacity_spec() == old(self).capacity_spec(),
            (r is Ok) <==> old(self).live().contains(id as int),
            r is Ok ==> final(self).live() == old(self).live().remove(id as int),
            r is Err ==> *final(self) == *old(self) && r == Err::<(), InvalidIdError>(InvalidIdError),
    {
        if id < self.used.len() && self.used[id] {
            self.used[id] = false;
            proof {
                assert(self.live() =~= old(self).live().remove(id as int));
            }
            Ok(())
        } else {
            Err(InvalidIdError)
        }
    }

    /// Every live id lies in `[0, capacity)`.
    pub proof fn lemma_live_in_range(self)
        ensures
            forall|i: int| self.live().contains(i) ==> 0 <= i < self.capacity_spec(),
    {
    }

    /// The pool is full exactly when as many ids are live as it has room for.
    pub proof fn lemma_full_iff_live_len(self)
        ensures
            self.is_full() <==> self.live().len() == self.capacity_spec(),
    {
        let n = self.capacity_spec() as int;
        lemma_int_range(0, n);
        if self.is_full() {
            assert(self.live() =~= set_int_range(0, n));
        } else {
            let i = choose|i: int| 0 <= i < n && !self.used@[i];
            assert(self.live().subset_of(set_int_range(0, n).remove(i)));
            lemma_len_subset(self.live(), set_int_range(0, n).remove(i));
            assert(set_int_range(0, n).remove(i).len() == n - 1);
        }
    }

    /// Law: the live ids form a set (no id is ever live twice), the set is
    /// finite, and its size never exceeds the capacity of the pool.
    pub proof fn lemma_live_ids_bounded(self)
        ensures
            self.live().finite(),
            self.live().len() <= self.capacity_spec(),
    {
        let n = self.capacity_spec() as int;
        lemma_int_range(0, n);
        assert(self.live().subset_of(set_int_range(0, n)));
        lemma_len_subset(self.live(), set_int_range(0, n));
    }
}

} // verus!
