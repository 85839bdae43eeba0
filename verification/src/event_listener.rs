//! A wait/notify primitive: tasks register as waiters for a named condition
//! and are woken when it is triggered.
//!
//! A waiter is a one-shot wake target: the suspended task's resume handle.
//! `trigger` wakes every waiter subscribed before it, each exactly once, and
//! clears the waiter set; no sticky signal is retained for later subscribers
//! (the listener is edge-triggered). To close the lost-wakeup race between a
//! subscription and a concurrent trigger, every trigger advances a generation
//! counter and every handle captures the count current at subscription time:
//! a waiter that finds the counts differ knows a trigger has fired since it
//! subscribed and resumes without waiting for a wake.

use vstd::prelude::*;

verus! {

/// Returned by [`EventListener::subscribe`]: identifies the waiter for
/// cancellation and carries the generation count captured at subscription.
#[derive(Clone, Copy, Debug, PartialEq, Eq, Structural)]
pub struct WaitHandle {
    /// Identifies this waiter within its listener.
    pub id: u64,
    /// The listener's generation count when the waiter subscribed.
    pub epoch: u64,
}

/// `s` with every occurrence of the waiter id `x` removed, subscription
/// order otherwise kept.
pub open spec fn seq_remove_id(s: Seq<u64>, x: u64) -> Seq<u64>
    decreases s.len(),
{
    if s.len() == 0 {
        Seq::empty()
    } else if s.first() == x {
        seq_remove_id(s.drop_first(), x)
    } else {
        seq![s.first()] + seq_remove_id(s.drop_first(), x)
    }
}

/// Removing an id commutes with appending a different waiter at the end.
pub proof fn lemma_seq_remove_id_push(s: Seq<u64>, x: u64, a: u64)
    ensures
        seq_remove_id(s.push(a), x) == if a == x {
            seq_remove_id(s, x)
        } else {
            (seq_remove_id(s, x).push(a))
        },
    decreases s.len(),
{
    reveal_with_fuel(seq_remove_id, 3);
    if s.len() == 0 {
        assert(s.push(a).drop_first() =~= Seq::<u64>::empty());
        if a == x {
            assert(seq_remove_id(s.push(a), x) =~= seq_remove_id(s, x));
        } else {
            assert(seq_remove_id(s.push(a), x) =~= seq_remove_id(s, x).push(a));
        }
    } else {
        assert(s.push(a).first() == s.first());
        assert(s.push(a).drop_first() =~= s.drop_first().push(a));
        lemma_seq_remove_id_push(s.drop_first(), x, a);
        if a != x && s.first() != x {
            assert(seq![s.first()] + seq_remove_id(s.drop_first(), x).push(a) =~= (seq![s.first()]
                + seq_remove_id(s.drop_first(), x)).push(a));
        }
    }
}

/// Law: cancelling one waiter never removes another. A waiter id `w` stays
/// pending across the removal of a different id `x`; together with the
/// contracts of `subscribe` and `trigger` this says that a waiter that
/// subscribes and is neither triggered nor cancelled remains pending.
pub proof fn lemma_cancel_keeps_other_waiters(s: Seq<u64>, x: u64, w: u64)
    requires
        w != x,
    ensures
        seq_remove_id(s, x).contains(w) <==> s.contains(w),
    decreases s.len(),
{
    if s.len() == 0 {
    } else {
        lemma_cancel_keeps_other_waiters(s.drop_first(), x, w);
        assert(s.contains(w) <==> (s.first() == w || s.drop_first().contains(w))) by {
            if s.contains(w) {
                let i = choose|i: int| 0 <= i < s.len() && s[i] == w;
                if i > 0 {
                    assert(s.drop_first()[i - 1] == w);
                }
            }
            if s.drop_first().contains(w) {
                let i = choose|i: int| 0 <= i < s.drop_first().len() && s.drop_first()[i] == w;
                assert(s[i + 1] == w);
            }
        }
        if s.first() != x {
            let rest = seq_remove_id(s.drop_first(), x);
            let whole = seq![s.first()] + rest;
            assert(whole.contains(w) <==> (s.first() == w || rest.contains(w))) by {
                if s.first() == w {
                    assert(whole[0] == w);
                }
                if rest.contains(w) {
                    let i = choose|i: int| 0 <= i < rest.len() && rest[i] == w;
                    assert(whole[i + 1] == w);
                }
                if whole.contains(w) {
                    let i = choose|i: int| 0 <= i < whole.len() && whole[i] == w;
                    if i > 0 {
                        assert(rest[i - 1] == w);
                    }
                }
            }
        }
    }
}

/// The cancelled id itself is gone afterwards.
pub proof fn lemma_seq_remove_id_gone(s: Seq<u64>, x: u64)
    ensures
        !seq_remove_id(s, x).contains(x),
    decreases s.len(),
{
    if s.len() == 0 {
    } else {
        lemma_seq_remove_id_gone(s.drop_first(), x);
        if s.first() != x {
            let rest = seq_remove_id(s.drop_first(), x);
            let whole = seq![s.first()] + rest;
            if whole.contains(x) {
                let i = choose|i: int| 0 <= i < whole.len() && whole[i] == x;
                if i > 0 {
                    assert(rest[i - 1] == x);
                }
            }
        }
    }
}

/// Removal keeps the waiter ids duplicate-free.
pub proof fn lemma_seq_remove_id_no_duplicates(s: Seq<u64>, x: u64)
    requires
        s.no_duplicates(),
    ensures
        seq_remove_id(s, x).no_duplicates(),
    decreases s.len(),
{
    if s.len() == 0 {
    } else {
        assert(s.drop_first().no_duplicates());
        lemma_seq_remove_id_no_duplicates(s.drop_first(), x);
        if s.first() != x {
            let rest = seq_remove_id(s.drop_first(), x);
            let whole = seq![s.first()] + rest;
            assert(!s.drop_first().contains(s.first())) by {
                if s.drop_first().contains(s.first()) {
                    let i = choose|i: int|
                        0 <= i < s.drop_first().len() && s.drop_first()[i] == s.first();
                    assert(s[i + 1] == s[0]);
                }
            }
            assert(!rest.contains(s.first())) by {
                lemma_cancel_keeps_other_waiters(s.drop_first(), x, s.first());
            }
            assert forall|i: int, j: int|
                0 <= i < whole.len() && 0 <= j < whole.len() && i != j implies whole[i]
                != whole[j] by {
                if i > 0 && j > 0 {
                    assert(rest[i - 1] != rest[j - 1]);
                } else if i == 0 && j > 0 {
                    assert(rest.contains(rest[j - 1]));
                } else if j == 0 && i > 0 {
                    assert(rest.contains(rest[i - 1]));
                }
            }
        }
    }
}

/// Registers waiters for a condition and wakes them all, exactly once each,
/// when the condition is triggered.
pub struct EventListener {
    /// Ids of the pending waiters, in subscription order.
    waiters: Vec<u64>,
    /// Source of fresh waiter ids; every id ever handed out is below it.
    next_id: u64,
    /// Generation count: the number of triggers so far.
    epoch: u64,
}

impl EventListener {
    /// Ids of the waiters currently pending, in subscription order.
    pub closed spec fn pending(self) -> Seq<u64> {
        self.waiters@
    }

    /// The number of triggers so far.
    pub closed spec fn epoch_spec(self) -> u64 {
        self.epoch
    }

    /// The id the next subscriber will receive.
    pub closed spec fn next_id_spec(self) -> u64 {
        self.next_id
    }

    /// No waiter is pending twice, and every pending id is below `next_id`.
    pub closed spec fn wf(self) -> bool {
        &&& self.waiters@.no_duplicates()
        &&& forall|i: int| 0 <= i < self.waiters@.len() ==> self.waiters@[i] < self.next_id
    }

    /// A listener with no pending waiters and no triggers recorded.
    pub fn new() -> (r: EventListener)
        ensures
            r.wf(),
            r.pending() == Seq::<u64>::empty(),
            r.epoch_spec() == 0,
            r.next_id_spec() == 0,
    {
        EventListener { waiters: Vec::new(), next_id: 0, epoch: 0 }
    }

    /// Registers the calling task as a waiter and returns the handle it
    /// suspends on. The new waiter was not pending before, and nobody is
    /// woken by subscribing.
    pub fn subscribe(&mut self) -> (h: WaitHandle)
        requires
            old(self).wf(),
            old(self).next_id_spec() < u64::MAX,
        ensures
            final(self).wf(),
            h.id == old(self).next_id_spec(),
            h.epoch == old(self).epoch_spec(),
            !old(self).pending().contains(h.id),
            final(self).pending() == old(self).pending().push(h.id),
            final(self).epoch_spec() == old(self).epoch_spec(),
            final(self).next_id_spec() == old(self).next_id_spec() + 1,
    {
        let id = self.next_id;
        self.next_id = self.next_id + 1;
        self.waiters.push(id);
        proof {
            assert(forall|j: int|
                0 <= j < old(self).waiters@.len() ==> old(self).waiters@[j] != id);
            assert(self.waiters@.no_duplicates()) by {
                assert(forall|j: int|
                    0 <= j < old(self).waiters@.len() ==> #[trigger] self.waiters@[j] == old(
                    self,
                ).waiters@[j]);
            }
        }
        WaitHandle { id, epoch: self.epoch }
    }

    /// Wakes every waiter currently subscribed, exactly once each, clears
    /// the waiter set and advances the generation count. The returned ids
    /// are the woken waiters, in subscription order; with no waiters this is
    /// a no-op that returns nothing.
    pub fn trigger(&mut self) -> (woken: Vec<u64>)
        requires
            old(self).wf(),
            old(self).epoch_spec() < u64::MAX,
        ensures
            final(self).wf(),
            woken@ == old(self).pending(),
            final(self).pending() == Seq::<u64>::empty(),
            final(self).epoch_spec() == old(self).epoch_spec() + 1,
            final(self).next_id_spec() == old(self).next_id_spec(),
    {
        let mut woken: Vec<u64> = Vec::new();
        core::mem::swap(&mut woken, &mut self.waiters);
        self.epoch = self.epoch + 1;
        woken
    }

    /// Removes the waiter of `h` without waking it; returns whether anything
    /// was removed, so a cancellation that raced with a trigger (which
    /// already emptied the set) reports that it removed nothing.
    pub fn cancel(&mut self, h: &WaitHandle) -> (removed: bool)
        requires
            old(self).wf(),
        ensures
            final(self).wf(),
            removed == old(self).pending().contains(h.id),
            final(self).pending() == seq_remove_id(old(self).pending(), h.id),
            !final(self).pending().contains(h.id),
            final(self).epoch_spec() == old(self).epoch_spec(),
            final(self).next_id_spec() == old(self).next_id_spec(),
    {
        let n = self.waiters.len();
        let mut kept: Vec<u64> = Vec::new();
        let mut removed = false;
        let mut i: usize = 0;
        while i < n
            invariant
                self.waiters@ == old(self).waiters@,
                self.next_id == old(self).next_id,
                self.epoch == old(self).epoch,
                n == self.waiters@.len(),
                i <= n,
                kept@ == seq_remove_id(self.waiters@.take(i as int), h.id),
                removed == self.waiters@.take(i as int).contains(h.id),
            decreases n - i,
        {
            let w = self.waiters[i];
            proof {
                assert(self.waiters@.take(i + 1) =~= self.waiters@.take(i as int).push(w));
                lemma_seq_remove_id_push(self.waiters@.take(i as int), h.id, w);
                if w == h.id {
                    assert(self.waiters@.take(i + 1)[i as int] == w);
                } else {
                    assert(self.waiters@.take(i + 1).contains(h.id) <==> self.waiters@.take(
                        i as int,
                    ).contains(h.id)) by {
                        let t = self.waiters@.take(i + 1);
                        if t.contains(h.id) {
                            let k = choose|k: int| 0 <= k < t.len() && t[k] == h.id;
                            if k < i {
                                assert(self.waiters@.take(i as int)[k] == h.id);
                            }
                        }
                        if self.waiters@.take(i as int).contains(h.id) {
                            let k = choose|k: int|
                                0 <= k < i && self.waiters@.take(i as int)[k] == h.id;
                            assert(self.waiters@.take(i + 1)[k] == h.id);
                        }
                    }
                }
            }
            if w == h.id {
                removed = true;
            } else {
                kept.push(w);
            }
            i += 1;
        }
        proof {
            assert(self.waiters@.take(n as int) =~= self.waiters@);
            lemma_seq_remove_id_gone(old(self).waiters@, h.id);
            lemma_seq_remove_id_no_duplicates(old(self).waiters@, h.id);
            assert(forall|j: int| 0 <= j < kept@.len() ==> kept@[j] < self.next_id) by {
                assert forall|j: int| 0 <= j < kept@.len() implies kept@[j] < self.next_id by {
                    lemma_cancel_keeps_other_waiters(old(self).waiters@, h.id, kept@[j]);
                    assert(kept@.contains(kept@[j]));
                    let k = choose|k: int|
                        0 <= k < old(self).waiters@.len() && old(self).waiters@[k] == kept@[j];
                }
            }
        }
        self.waiters = kept;
        removed
    }

    /// Whether a trigger has fired since `h` subscribed. A waiter that finds
    /// this true knows its wake already happened (or raced past it) and must
    /// not keep waiting: this closes the lost-wakeup window between a
    /// subscription and a concurrent trigger.
    pub fn fired_since(&self, h: &WaitHandle) -> (r: bool)
        ensures
            r == (self.epoch_spec() != h.epoch),
    {
        self.epoch != h.epoch
    }

    /// Number of pending waiters.
    pub fn pending_len(&self) -> (r: usize)
        ensures
            r == self.pending().len(),
    {
        self.waiters.len()
    }

    /// The pending waiter ids, in subscription order.
    pub fn pending_ids(&self) -> (r: Vec<u64>)
        ensures
            r@ == self.pending(),
    {
        let n = self.waiters.len();
        let mut out: Vec<u64> = Vec::new();
        let mut i: usize = 0;
        while i < n
            invariant
                n == self.waiters@.len(),
                i <= n,
                out@ == self.waiters@.take(i as int),
            decreases n - i,
        {
            proof {
                assert(self.waiters@.take(i + 1) =~= self.waiters@.take(i as int).push(
                    self.waiters@[i as int],
                ));
            }
            out.push(self.waiters[i]);
            i += 1;
        }
        proof {
            assert(self.waiters@.take(n as int) =~= self.waiters@);
        }
        out
    }

    /// Law: a trigger wakes each pending waiter exactly once. The woken ids
    /// are exactly the pending ones, and a pending id occurs once among
    /// them, never twice.
    pub proof fn lemma_trigger_wakes_exactly_once(self, w: u64)
        requires
            self.wf(),
            self.pending().contains(w),
        ensures
            self.pending().to_multiset().count(w) == 1,
    {
        broadcast use vstd::seq_lib::group_to_multiset_ensures;

        self.pending().lemma_multiset_has_no_duplicates();
        assert(self.pending().to_multiset().count(w) > 0);
    }
}

} // verus!
