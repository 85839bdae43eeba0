//! The interrupt registry: maps interrupt-vector numbers to an ordered list
//! of handler entries and dispatches a firing vector to all of them.
//!
//! Handler ids are minted by the bounded [`IdAllocator`], so they are unique
//! across the manager. An entry does not own the listener it drives: it
//! holds only a callback token (a weak reference by id), so a listener can
//! be torn down without calling back into the manager. Dispatch never
//! allocates and never blocks; a vector with no registered handler is a
//! silent no-op, never fatal, since hardware can raise unclaimed vectors
//! during device probing.

use crate::id_allocator::IdAllocator;
use vstd::prelude::*;

verus! {

/// Returned by [`IrqManager::register`] when no handler id is free.
#[derive(Clone, Copy, Debug, PartialEq, Eq, Structural)]
pub struct NoCapacityError;

/// Returned by [`IrqManager::unregister`] for an unknown handler id.
#[derive(Clone, Copy, Debug, PartialEq, Eq, Structural)]
pub struct NotFoundError;

/// A registration record binding a vector to a callback token and the
/// handler id allocated for it.
#[derive(Clone, Copy, Debug, PartialEq, Eq, Structural)]
pub struct HandlerEntry {
    /// The interrupt vector this entry is registered on.
    pub vector: usize,
    /// Unique id of this registration, minted by the manager's allocator.
    pub handler_id: usize,
    /// Token naming the wake target (typically a listener) this entry
    /// drives; the manager holds no owning reference to that target.
    pub callback: usize,
}

/// The callback tokens of the entries registered on `vector`, in
/// registration order.
pub open spec fn callbacks_of(s: Seq<HandlerEntry>, vector: usize) -> Seq<usize>
    decreases s.len(),
{
    if s.len() == 0 {
        Seq::empty()
    } else if s.first().vector == vector {
        seq![s.first().callback] + callbacks_of(s.drop_first(), vector)
    } else {
        callbacks_of(s.drop_first(), vector)
    }
}

/// Law: dispatch order is registration order. Registering one more entry
/// never disturbs the callbacks already registered on a vector; the new
/// callback is invoked last, and only on its own vector.
pub proof fn lemma_callbacks_of_push(s: Seq<HandlerEntry>, vector: usize, e: HandlerEntry)
    ensures
        callbacks_of(s.push(e), vector) == if e.vector == vector {
            (callbacks_of(s, vector).push(e.callback))
        } else {
            callbacks_of(s, vector)
        },
    decreases s.len(),
{
    reveal_with_fuel(callbacks_of, 3);
    if s.len() == 0 {
        assert(s.push(e).drop_first() =~= Seq::<HandlerEntry>::empty());
        if e.vector == vector {
            assert(callbacks_of(s.push(e), vector) =~= callbacks_of(s, vector).push(e.callback));
        }
    } else {
        assert(s.push(e).first() == s.first());
        assert(s.push(e).drop_first() =~= s.drop_first().push(e));
        lemma_callbacks_of_push(s.drop_first(), vector, e);
        if s.first().vector == vector && e.vector == vector {
            assert(seq![s.first().callback] + callbacks_of(s.drop_first(), vector).push(e.callback)
                =~= (seq![s.first().callback] + callbacks_of(s.drop_first(), vector)).push(
                e.callback,
            ));
        }
    }
}

/// Law: a vector on which nothing is registered dispatches to nothing.
pub proof fn lemma_unclaimed_vector_dispatches_nothing(s: Seq<HandlerEntry>, vector: usize)
    requires
        forall|k: int| 0 <= k < s.len() ==> (#[trigger] s[k]).vector != vector,
    ensures
        callbacks_of(s, vector) == Seq::<usize>::empty(),
    decreases s.len(),
{
    if s.len() == 0 {
    } else {
        assert(s[0].vector != vector);
        assert(forall|k: int|
            0 <= k < s.drop_first().len() ==> (#[trigger] s.drop_first()[k]).vector != vector);
        lemma_unclaimed_vector_dispatches_nothing(s.drop_first(), vector);
    }
}

/// Maps interrupt vectors to their ordered handler entries.
pub struct IrqManager {
    /// All registration records, in registration order.
    entries: Vec<HandlerEntry>,
    /// Mints the unique handler ids.
    ids: IdAllocator,
}

impl IrqManager {
    /// The registration records, in registration order.
    pub closed spec fn entries_spec(self) -> Seq<HandlerEntry> {
        self.entries@
    }

    /// The allocator backing the handler ids.
    pub closed spec fn ids_spec(self) -> IdAllocator {
        self.ids
    }

    /// How many handler ids the manager can have live at once.
    pub closed spec fn capacity_spec(self) -> nat {
        self.ids.capacity_spec()
    }

    /// Handler ids are pairwise distinct and live in the allocator.
    pub closed spec fn wf(self) -> bool {
        &&& forall|k: int|
            0 <= k < self.entries@.len() ==> self.ids.live().contains(
                (#[trigger] self.entries@[k]).handler_id as int,
            )
        &&& forall|k: int, l: int|
            0 <= k < self.entries@.len() && 0 <= l < self.entries@.len() && k != l
                ==> (#[trigger] self.entries@[k]).handler_id != (
            #[trigger] self.entries@[l]).handler_id
    }

    /// A manager with no registrations and room for `capacity` handlers.
    pub fn new(capacity: usize) -> (r: IrqManager)
        ensures
            r.wf(),
            r.entries_spec() == Seq::<HandlerEntry>::empty(),
            r.capacity_spec() == capacity,
            r.ids_spec().live() == Set::<int>::empty(),
    {
        IrqManager { entries: Vec::new(), ids: IdAllocator::new(capacity) }
    }

    /// Number of registrations currently held.
    pub fn handler_count(&self) -> (r: usize)
        ensures
            r == self.entries_spec().len(),
    {
        self.entries.len()
    }

    /// Registers `callback` on `vector`: allocates a handler id and appends
    /// the entry to the vector's handler list. Registering the same callback
    /// twice yields two distinct entries. Fails exactly when the id pool is
    /// exhausted.
    pub fn register(&mut self, vector: usize, callback: usize) -> (r: Result<
        usize,
        NoCapacityError,
    >)
        requires
            old(self).wf(),
        ensures
            final(self).wf(),
            final(self).capacity_spec() == old(self).capacity_spec(),
            (r is Err) <==> old(self).ids_spec().is_full(),
            (r is Err) <==> old(self).ids_spec().live().len() == old(self).capacity_spec(),
            match r {
                Ok(id) => {
                    &&& id < old(self).capacity_spec()
                    &&& !old(self).ids_spec().live().contains(id as int)
                    &&& final(self).entries_spec() == old(self).entries_spec().push(
                        (HandlerEntry { vector, handler_id: id, callback }),
                    )
                    &&& final(self).ids_spec().live() == old(self).ids_spec().live().insert(
                        id as int,
                    )
                },
                Err(e) => {
                    &&& *final(self) == *old(self)
                    &&& e == NoCapacityError
                },
            },
    {
        match self.ids.allocate() {
            Ok(id) => {
                self.entries.push(HandlerEntry { vector, handler_id: id, callback });
                proof {
                    assert forall|k: int| 0 <= k < self.entries@.len() implies self.ids.live()
                        .contains((#[trigger] self.entries@[k]).handler_id as int) by {
                        if k < old(self).entries@.len() {
                            assert(old(self).ids.live().contains(
                                old(self).entries@[k].handler_id as int,
                            ));
                        }
                    }
                }
                Ok(id)
            },
            Err(_) => Err(NoCapacityError),
        }
    }

    /// Removes the entry with `handler_id`, whichever vector it is on, and
    /// releases the id. Fails exactly when no entry has that id.
    pub fn unregister(&mut self, handler_id: usize) -> (r: Result<(), NotFoundError>)
        requires
            old(self).wf(),
        ensures
            final(self).wf(),
            final(self).capacity_spec() == old(self).capacity_spec(),
            (r is Ok) <==> exists|k: int|
                0 <= k < old(self).entries_spec().len() && (#[trigger] old(
                    self,
                ).entries_spec()[k]).handler_id == handler_id,
            r is Ok ==> final(self).ids_spec().live() == old(self).ids_spec().live().remove(
                handler_id as int,
            ) && exists|k: int|
                0 <= k < old(self).entries_spec().len() && (#[trigger] old(
                    self,
                ).entries_spec()[k]).handler_id == handler_id && final(self).entries_spec() == old(
                    self,
                ).entries_spec().remove(k),
            r is Err ==> *final(self) == *old(self) && r == Err::<(), NotFoundError>(NotFoundError),
    {
        let n = self.entries.len();
        let mut i: usize = 0;
        while i < n
            invariant
                *self == *old(self),
                old(self).wf(),
                n == self.entries@.len(),
                i <= n,
                forall|j: int| 0 <= j < i ==> (#[trigger] self.entries@[j]).handler_id != handler_id,
            decreases n - i,
        {
            if self.entries[i].handler_id == handler_id {
                self.entries.remove(i);
                let _ = self.ids.release(handler_id);
                proof {
                    let pre = old(self).entries@;
                    assert(pre[i as int].handler_id == handler_id);
                    assert((old(self).entries_spec()[i as int]).handler_id == handler_id);
                    assert(old(self).ids.live().contains(handler_id as int));
                    assert(self.entries@ == old(self).entries@.remove(i as int));
                    assert forall|k: int| 0 <= k < self.entries@.len() implies self.ids.live()
                        .contains((#[trigger] self.entries@[k]).handler_id as int) by {
                        let orig: int = if k < i { k } else { k + 1 };
                        assert(self.entries@[k] == pre[orig]);
                        assert(old(self).ids.live().contains(pre[orig].handler_id as int));
                        assert(pre[orig].handler_id != handler_id);
                    }
                    assert forall|k: int, l: int|
                        0 <= k < self.entries@.len() && 0 <= l < self.entries@.len() && k
                            != l implies (#[trigger] self.entries@[k]).handler_id != (
                    #[trigger] self.entries@[l]).handler_id by {
                        let ok: int = if k < i { k } else { k + 1 };
                        let ol: int = if l < i { l } else { l + 1 };
                        assert(self.entries@[k] == pre[ok]);
                        assert(self.entries@[l] == pre[ol]);
                    }
                }
                return Ok(());
            }
            i += 1;
        }
        Err(NotFoundError)
    }

    /// Dispatches a firing `vector`: returns the callback tokens of every
    /// entry registered on it, in registration order, for the caller to
    /// invoke. A vector with no handlers yields an empty list and has no
    /// effect.
    pub fn dispatch(&self, vector: usize) -> (r: Vec<usize>)
        ensures
            r@ == callbacks_of(self.entries_spec(), vector),
    {
        let n = self.entries.len();
        let mut out: Vec<usize> = Vec::new();
        let mut i: usize = 0;
        while i < n
            invariant
                n == self.entries@.len(),
                i <= n,
                out@ == callbacks_of(self.entries@.take(i as int), vector),
            decreases n - i,
        {
            let e = self.entries[i];
            proof {
                assert(self.entries@.take(i + 1) =~= self.entries@.take(i as int).push(e));
                lemma_callbacks_of_push(self.entries@.take(i as int), vector, e);
            }
            if e.vector == vector {
                out.push(e.callback);
            }
            i += 1;
        }
        proof {
            assert(self.entries@.take(n as int) =~= self.entries@);
        }
        out
    }
}

} // verus!
