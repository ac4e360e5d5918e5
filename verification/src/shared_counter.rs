//! Single-threaded shared ownership with an explicit strong count.
//!
//! A [`SharedCounter`] is the allocation block of the data model: it owns the
//! payload together with its `strong_count`. A [`SharedHandle`] is one live
//! handle to that block; cloning a handle raises the count by one and
//! dropping a handle lowers it, and the payload is destroyed exactly when the
//! count falls from 1 to 0. Each handle carries a ghost identity, so the
//! block can state — and [`lemma_strong_count_matches_handles`] proves — that
//! the strong count always equals the number of live handles.
//!
//! This variant uses plain arithmetic on the count and must stay on one
//! thread; the cross-thread variant of the same discipline lives in
//! [`crate::atomic_counter::AtomicSharedCounter`], and the discipline itself
//! is stated abstractly, over whole operation sequences, in
//! [`crate::counting`].

use vstd::prelude::*;

verus! {

broadcast use vstd::set::group_set_axioms;

/// One live handle to a [`SharedCounter`] block.
pub struct SharedHandle {
    id: Ghost<int>,
}

impl SharedHandle {
    /// The ghost identity distinguishing this handle from its siblings.
    pub closed spec fn id(self) -> int {
        self.id@
    }
}

/// The allocation block: payload plus strong count, with a ghost record of
/// which handles are live.
pub struct SharedCounter<T> {
    payload: Option<T>,
    strong: usize,
    live: Ghost<Set<int>>,
    next_id: Ghost<int>,
}

impl<T> SharedCounter<T> {
    /// The payload, while the block is alive; `None` once destroyed.
    pub closed spec fn payload_value(self) -> Option<T> {
        self.payload
    }

    /// The strong count.
    pub closed spec fn strong(self) -> int {
        self.strong as int
    }

    /// The identities of the handles that are currently live.
    pub closed spec fn handles(self) -> Set<int> {
        self.live@
    }

    /// Whether `h` is a live handle to this block.
    pub open spec fn holds(self, h: SharedHandle) -> bool {
        self.handles().contains(h.id())
    }

    /// The counting invariant: the strong count equals the number of live
    /// handles, and the payload lives exactly while some handle does.
    pub closed spec fn wf(self) -> bool {
        &&& self.live@.finite()
        &&& self.strong as int == self.live@.len()
        &&& (self.payload is Some <==> self.strong > 0)
        &&& forall|i: int| self.live@.contains(i) ==> 0 <= i < self.next_id@
    }

    /// Creates a block holding `value` with a strong count of 1, and returns
    /// it with its first handle.
    pub fn new(value: T) -> (r: (Self, SharedHandle))
        ensures
            r.0.wf(),
            r.0.strong() == 1,
            r.0.payload_value() == Some(value),
            r.0.holds(r.1),
    {
        let counter = SharedCounter {
            payload: Some(value),
            strong: 1,
            live: Ghost(Set::empty().insert(0int)),
            next_id: Ghost(1int),
        };
        proof {
            assert(counter.live@.len() == 1);
        }
        (counter, SharedHandle { id: Ghost(0int) })
    }

    /// Clones a live handle: O(1), never fails, raises the strong count by 1
    /// and leaves the payload untouched.
    pub fn clone_handle(&mut self, h: &SharedHandle) -> (g: SharedHandle)
        requires
            old(self).wf(),
            old(self).holds(*h),
            old(self).strong() < usize::MAX,
        ensures
            final(self).wf(),
            final(self).strong() == old(self).strong() + 1,
            final(self).payload_value() == old(self).payload_value(),
            final(self).handles() == old(self).handles().insert(g.id()),
            final(self).holds(g),
            final(self).holds(*h),
            !old(self).handles().contains(g.id()),
    {
        let ghost fresh = self.next_id@;
        self.strong = self.strong + 1;
        proof {
            self.live@ = self.live@.insert(fresh);
            self.next_id@ = self.next_id@ + 1;
        }
        SharedHandle { id: Ghost(fresh) }
    }

    /// Drops a live handle, lowering the strong count by 1. When the count
    /// reaches 0 the payload is destroyed; otherwise it is untouched.
    pub fn drop_handle(&mut self, h: SharedHandle)
        requires
            old(self).wf(),
            old(self).holds(h),
        ensures
            final(self).wf(),
            final(self).strong() == old(self).strong() - 1,
            final(self).handles() == old(self).handles().remove(h.id()),
            final(self).payload_value() == if old(self).strong() == 1 {
                None::<T>
            } else {
                old(self).payload_value()
            },
    {
        self.strong = self.strong - 1;
        proof {
            self.live@ = self.live@.remove(h.id@);
        }
        if self.strong == 0 {
            self.payload = None;
        }
    }

    /// Reads the current strong count.
    pub fn strong_count(&self) -> (r: usize)
        ensures
            r == self.strong(),
    {
        self.strong
    }

    /// Read-only access to the payload through a live handle.
    pub fn get(&self, h: &SharedHandle) -> (r: &T)
        requires
            self.wf(),
            self.holds(*h),
        ensures
            Some(*r) == self.payload_value(),
    {
        let _ = h;
        proof {
            assert(self.live@.len() > 0);
        }
        match &self.payload {
            Some(v) => v,
            None => vstd::pervasive::unreached(),
        }
    }
}

/// For every reachable block, the strong count equals the number of live
/// handles, and the payload is alive exactly while that number is positive.
pub proof fn lemma_strong_count_matches_handles<T>(c: SharedCounter<T>)
    requires
        c.wf(),
    ensures
        c.strong() == c.handles().len(),
        c.payload_value() is Some <==> c.handles().len() > 0,
{
}

/// Once the strong count has reached 0 the block stays destroyed: no live
/// handle remains, and every operation that could revive the count demands one.
pub proof fn lemma_destruction_is_final<T>(c: SharedCounter<T>)
    requires
        c.wf(),
        c.strong() == 0,
    ensures
        c.handles() =~= Set::<int>::empty(),
        c.payload_value() is None,
{
    if exists|i: int| c.handles().contains(i) {
        let i = choose|i: int| c.handles().contains(i);
        assert(c.handles().len() > 0);
    }
}

} // verus!
