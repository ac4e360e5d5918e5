//! Cross-thread shared ownership with an explicit strong count.
//!
//! An [`AtomicSharedCounter`] keeps the same counting discipline as
//! [`crate::shared_counter::SharedCounter`] — the strong count equals the
//! number of live handles, and the payload is destroyed exactly when the
//! count falls from 1 to 0 — but its external contract is meant for handles
//! that cross threads. Every transition here is a single indivisible step on
//! an exclusively held block, which is what hardware read-modify-write
//! updates provide to concurrent callers; the two counter types stay
//! separate so the single-threaded variant keeps its cheaper plain counter.
//! The discipline itself is stated abstractly in [`crate::counting`].
//!
//! The counter alone gives shared read access; a payload mutated across
//! threads must itself be a [`crate::lock::Lock`], reached through
//! [`AtomicSharedCounter::get_mut`].

use vstd::prelude::*;

verus! {

broadcast use vstd::set::group_set_axioms;

/// One live cross-thread handle to an [`AtomicSharedCounter`] block.
pub struct AtomicHandle {
    id: Ghost<int>,
}

impl AtomicHandle {
    /// The ghost identity distinguishing this handle from its siblings.
    pub closed spec fn id(self) -> int {
        self.id@
    }
}

/// The allocation block of the cross-thread counting discipline.
pub struct AtomicSharedCounter<T> {
    payload: Option<T>,
    strong: usize,
    live: Ghost<Set<int>>,
    next_id: Ghost<int>,
}

impl<T> AtomicSharedCounter<T> {
    /// The payload, while the block is alive; `None` once destroyed.
    pub closed spec fn payload_value(self) -> Option<T> {
        self.payload
    }

    /// The strong count.
    pub closed spec fn strong(self) -> int {
        self.strong as int
    }

    /// The identities of the handles that are currently live.
    pub closed spec fn handles(self) -> Set<int> {
        self.live@
    }

    /// Whether `h` is a live handle to this block.
    pub open spec fn holds(self, h: AtomicHandle) -> bool {
        self.handles().contains(h.id())
    }

    /// The counting invariant, shared in statement with the single-threaded
    /// variant: count equals live handles; payload lives while some handle does.
    pub closed spec fn wf(self) -> bool {
        &&& self.live@.finite()
        &&& self.strong as int == self.live@.len()
        &&& (self.payload is Some <==> self.strong > 0)
        &&& forall|i: int| self.live@.contains(i) ==> 0 <= i < self.next_id@
    }

    /// Creates a block holding `value` with a strong count of 1, and returns
    /// it with its first handle.
    pub fn new(value: T) -> (r: (Self, AtomicHandle))
        ensures
            r.0.wf(),
            r.0.strong() == 1,
            r.0.payload_value() == Some(value),
            r.0.holds(r.1),
    {
        let counter = AtomicSharedCounter {
            payload: Some(value),
            strong: 1,
            live: Ghost(Set::empty().insert(0int)),
            next_id: Ghost(1int),
        };
        proof {
            assert(counter.live@.len() == 1);
        }
        (counter, AtomicHandle { id: Ghost(0int) })
    }

    /// Clones a live handle in one indivisible step: the count rises by
    /// exactly 1, so concurrent clones and drops never lose an update.
    pub fn clone_handle(&mut self, h: &AtomicHandle) -> (g: AtomicHandle)
        requires
            old(self).wf(),
            old(self).holds(*h),
            old(self).strong() < usize::MAX,
        ensures
            final(self).wf(),
            final(self).strong() == old(self).strong() + 1,
            final(self).payload_value() == old(self).payload_value(),
            final(self).handles() == old(self).handles().insert(g.id()),
            final(self).holds(g),
            final(self).holds(*h),
            !old(self).handles().contains(g.id()),
    {
        let ghost fresh = self.next_id@;
        self.strong = self.strong + 1;
        proof {
            self.live@ = self.live@.insert(fresh);
            self.next_id@ = self.next_id@ + 1;
        }
        AtomicHandle { id: Ghost(fresh) }
    }

    /// Drops a live handle in one indivisible step. Exactly one drop sees the
    /// count fall to 0, and only that drop destroys the payload: no double
    /// free.
    pub fn drop_handle(&mut self, h: AtomicHandle)
        requires
            old(self).wf(),
            old(self).holds(h),
        ensures
            final(self).wf(),
            final(self).strong() == old(self).strong() - 1,
            final(self).handles() == old(self).handles().remove(h.id()),
            final(self).payload_value() == if old(self).strong() == 1 {
                None::<T>
            } else {
                old(self).payload_value()
            },
    {
        self.strong = self.strong - 1;
        proof {
            self.live@ = self.live@.remove(h.id@);
        }
        if self.strong == 0 {
            self.payload = None;
        }
    }

    /// Reads the current strong count.
    pub fn strong_count(&self) -> (r: usize)
        ensures
            r == self.strong(),
    {
        self.strong
    }

    /// Shared read access to the payload through a live handle.
    pub fn get(&self, h: &AtomicHandle) -> (r: &T)
        requires
            self.wf(),
            self.holds(*h),
        ensures
            Some(*r) == self.payload_value(),
    {
        let _ = h;
        proof {
            assert(self.live@.len() > 0);
        }
        match &self.payload {
            Some(v) => v,
            None => vstd::pervasive::unreached(),
        }
    }

    /// Reaches the payload for mutation through a live handle. This is how a
    /// contained [`crate::lock::Lock`] is acquired: the payload stays safely
    /// mutable across threads only when the lock inside it serialises the
    /// writers, which the exclusive access here stands for.
    pub fn get_mut(&mut self, h: &AtomicHandle) -> (r: &mut T)
        requires
            old(self).wf(),
            old(self).holds(*h),
        ensures
            Some(*r) == old(self).payload_value(),
            final(self).payload_value() == Some(*final(r)),
            final(self).strong() == old(self).strong(),
            final(self).handles() == old(self).handles(),
            final(self).wf(),
    {
        let _ = h;
        proof {
            assert(self.live@.len() > 0);
        }
        match &mut self.payload {
            Some(v) => v,
            None => vstd::pervasive::unreached(),
        }
    }
}

/// For every reachable block, the strong count equals the number of live
/// handles, and the payload is alive exactly while that number is positive.
pub proof fn lemma_atomic_count_matches_handles<T>(c: AtomicSharedCounter<T>)
    requires
        c.wf(),
    ensures
        c.strong() == c.handles().len(),
        c.payload_value() is Some <==> c.handles().len() > 0,
{
}

/// Once the strong count has reached 0 the block stays destroyed: no live
/// handle remains, and every operation that could revive the count demands one.
pub proof fn lemma_atomic_destruction_is_final<T>(c: AtomicSharedCounter<T>)
    requires
        c.wf(),
        c.strong() == 0,
    ensures
        c.handles() =~= Set::<int>::empty(),
        c.payload_value() is None,
{
    if exists|i: int| c.handles().contains(i) {
        let i = choose|i: int| c.handles().contains(i);
        assert(c.handles().len() > 0);
    }
}

} // verus!
