//! A dynamically borrow-checked mutable cell.
//!
//! A [`BorrowCell`] grants either many simultaneous read views or one write
//! view over its payload, and enforces that choice at call time through an
//! explicit finite-state machine: aliasing discipline moved from static
//! analysis to a run-time [`BorrowState`]. Guards represent acquired views;
//! releasing a guard steps the machine back.
//!
//! The module also states the discipline abstractly: [`machine_step`] is the
//! transition relation shared by the executable methods, and
//! [`lemma_no_overlapping_views`] proves that over every interleaving of
//! borrow and release requests, a write view never coexists with a read view
//! or with a second write view.

use vstd::prelude::*;

verus! {

/// The borrow discipline a cell is in at one instant.
///
/// `Shared(n)` carries the number of outstanding read views, always at least 1.
pub enum BorrowState {
    Free,
    Shared(nat),
    Exclusive,
}

/// A requested view conflicts with an outstanding view; the caller may retry.
#[derive(Debug, PartialEq, Eq, Structural, Clone, Copy)]
pub struct BorrowError;

/// An outstanding read view. Handing it back releases the view.
pub struct ReadGuard {
    granted: (),
}

/// The outstanding write view. Handing it back releases the view.
pub struct WriteGuard {
    granted: (),
}

/// Whether a read view may be granted: always, except under a write view.
pub open spec fn grants_read(s: BorrowState) -> bool {
    !(s is Exclusive)
}

/// Whether the write view may be granted: only with no view outstanding.
pub open spec fn grants_write(s: BorrowState) -> bool {
    s is Free
}

/// The state after a read view is granted.
pub open spec fn after_acquire_read(s: BorrowState) -> BorrowState {
    match s {
        BorrowState::Free => BorrowState::Shared(1),
        BorrowState::Shared(n) => BorrowState::Shared(n + 1),
        BorrowState::Exclusive => BorrowState::Exclusive,
    }
}

/// The state after one read view is released.
pub open spec fn after_release_read(s: BorrowState) -> BorrowState {
    match s {
        BorrowState::Shared(n) => if n <= 1 {
            BorrowState::Free
        } else {
            BorrowState::Shared((n - 1) as nat)
        },
        _ => s,
    }
}

/// The number of read views a state records.
pub open spec fn read_views(s: BorrowState) -> nat {
    match s {
        BorrowState::Shared(n) => n,
        _ => 0,
    }
}

/// The number of write views a state records: one under `Exclusive`, else none.
pub open spec fn write_views(s: BorrowState) -> nat {
    if s is Exclusive {
        1
    } else {
        0
    }
}

/// One request against a cell: acquiring or releasing a view.
pub enum BorrowOp {
    AcquireRead,
    ReleaseRead,
    AcquireWrite,
    ReleaseWrite,
}

/// The abstract machine: the borrow state together with the guards actually out.
pub struct BorrowMachine {
    pub state: BorrowState,
    pub read_guards: nat,
    pub write_guards: nat,
}

/// The machine as a fresh cell starts: free, with no guard outstanding.
pub open spec fn machine_init() -> BorrowMachine {
    BorrowMachine { state: BorrowState::Free, read_guards: 0, write_guards: 0 }
}

/// How one request moves the machine. A denied acquisition and a release
/// without an outstanding guard leave the machine unchanged.
pub open spec fn machine_step(m: BorrowMachine, op: BorrowOp) -> BorrowMachine {
    match op {
        BorrowOp::AcquireRead => if grants_read(m.state) {
            BorrowMachine {
                state: after_acquire_read(m.state),
                read_guards: m.read_guards + 1,
                ..m
            }
        } else {
            m
        },
        BorrowOp::ReleaseRead => if m.read_guards > 0 {
            BorrowMachine {
                state: after_release_read(m.state),
                read_guards: (m.read_guards - 1) as nat,
                ..m
            }
        } else {
            m
        },
        BorrowOp::AcquireWrite => if grants_write(m.state) {
            BorrowMachine {
                state: BorrowState::Exclusive,
                write_guards: m.write_guards + 1,
                ..m
            }
        } else {
            m
        },
        BorrowOp::ReleaseWrite => if m.write_guards > 0 {
            BorrowMachine { state: BorrowState::Free, write_guards: (m.write_guards - 1) as nat, ..m }
        } else {
            m
        },
    }
}

/// The machine after a whole sequence of requests, oldest first.
pub open spec fn machine_run(ops: Seq<BorrowOp>) -> BorrowMachine
    decreases ops.len(),
{
    if ops.len() == 0 {
        machine_init()
    } else {
        machine_step(machine_run(ops.drop_last()), ops.last())
    }
}

/// The machine's invariant: the state records exactly the guards that are out,
/// and a `Shared` state always counts at least one view.
pub open spec fn machine_inv(m: BorrowMachine) -> bool {
    &&& m.read_guards == read_views(m.state)
    &&& m.write_guards == write_views(m.state)
    &&& m.state matches BorrowState::Shared(n) ==> n >= 1
}

/// One request preserves the machine's invariant.
pub proof fn lemma_step_preserves_inv(m: BorrowMachine, op: BorrowOp)
    requires
        machine_inv(m),
    ensures
        machine_inv(machine_step(m, op)),
{
}

/// Every interleaving of borrow and release requests keeps the state in step
/// with the guards that are out.
pub proof fn lemma_machine_inv(ops: Seq<BorrowOp>)
    ensures
        machine_inv(machine_run(ops)),
    decreases ops.len(),
{
    if ops.len() > 0 {
        lemma_machine_inv(ops.drop_last());
        lemma_step_preserves_inv(machine_run(ops.drop_last()), ops.last());
    }
}

/// Over every interleaving of acquisitions and releases, at most one write
/// view is ever out, and never at the same time as any read view: an
/// `Exclusive` state overlaps neither a `Shared` state nor another `Exclusive`.
pub proof fn lemma_no_overlapping_views(ops: Seq<BorrowOp>)
    ensures
        machine_run(ops).write_guards <= 1,
        machine_run(ops).write_guards > 0 ==> machine_run(ops).read_guards == 0,
{
    lemma_machine_inv(ops);
}

/// A read view acquired in the free state and then released returns the cell
/// to `Free`, from which the write view is granted.
pub proof fn lemma_read_release_round_trip(s: BorrowState)
    requires
        s is Free,
    ensures
        after_release_read(after_acquire_read(s)) is Free,
        grants_write(after_release_read(after_acquire_read(s))),
{
}

/// A cell whose payload is guarded by a run-time borrow-state machine.
pub struct BorrowCell<T> {
    contents: T,
    readers: usize,
    writing: bool,
}

impl<T> BorrowCell<T> {
    /// The borrow state the cell is in.
    pub closed spec fn state(self) -> BorrowState {
        if self.writing {
            BorrowState::Exclusive
        } else if self.readers == 0 {
            BorrowState::Free
        } else {
            BorrowState::Shared(self.readers as nat)
        }
    }

    /// The payload.
    pub closed spec fn value(self) -> T {
        self.contents
    }

    /// The cell's internal invariant: a write view suspends all read counting.
    pub closed spec fn wf(self) -> bool {
        self.writing ==> self.readers == 0
    }

    /// Wraps `value` in a fresh, free cell.
    pub fn new(value: T) -> (c: Self)
        ensures
            c.wf(),
            c.state() is Free,
            c.value() == value,
    {
        BorrowCell { contents: value, readers: 0, writing: false }
    }

    /// Requests a read view. Succeeds — moving `Free` to `Shared(1)` or
    /// `Shared(n)` to `Shared(n + 1)` — unless the write view is out.
    pub fn try_borrow(&mut self) -> (r: Result<ReadGuard, BorrowError>)
        requires
            old(self).wf(),
            old(self).state() matches BorrowState::Shared(n) ==> n < usize::MAX,
        ensures
            final(self).wf(),
            final(self).value() == old(self).value(),
            r is Ok <==> grants_read(old(self).state()),
            r is Ok ==> final(self).state() == after_acquire_read(old(self).state()),
            r is Err ==> final(self).state() == old(self).state(),
    {
        if self.writing {
            Err(BorrowError)
        } else {
            self.readers = self.readers + 1;
            Ok(ReadGuard { granted: () })
        }
    }

    /// Requests the write view. Succeeds only from `Free`, moving to `Exclusive`.
    pub fn try_borrow_mut(&mut self) -> (r: Result<WriteGuard, BorrowError>)
        requires
            old(self).wf(),
        ensures
            final(self).wf(),
            final(self).value() == old(self).value(),
            r is Ok <==> grants_write(old(self).state()),
            r is Ok ==> final(self).state() is Exclusive,
            r is Err ==> final(self).state() == old(self).state(),
    {
        if self.writing || self.readers > 0 {
            Err(BorrowError)
        } else {
            self.writing = true;
            Ok(WriteGuard { granted: () })
        }
    }

    /// Takes a read view outright. Where a conflicting view might be out,
    /// use [`Self::try_borrow`]: this form is for callers that have already
    /// ruled the conflict out, and demands that proof up front.
    pub fn borrow(&mut self) -> (g: ReadGuard)
        requires
            old(self).wf(),
            grants_read(old(self).state()),
            old(self).state() matches BorrowState::Shared(n) ==> n < usize::MAX,
        ensures
            final(self).wf(),
            final(self).value() == old(self).value(),
            final(self).state() == after_acquire_read(old(self).state()),
    {
        self.readers = self.readers + 1;
        ReadGuard { granted: () }
    }

    /// Takes the write view outright; the caller must have ruled out every
    /// conflicting view, as with [`Self::borrow`].
    pub fn borrow_mut(&mut self) -> (g: WriteGuard)
        requires
            old(self).wf(),
            grants_write(old(self).state()),
        ensures
            final(self).wf(),
            final(self).value() == old(self).value(),
            final(self).state() is Exclusive,
    {
        self.writing = true;
        WriteGuard { granted: () }
    }

    /// Reads the payload under an outstanding read view.
    pub fn read(&self, guard: &ReadGuard) -> (r: &T)
        requires
            self.wf(),
            self.state() matches BorrowState::Shared(n),
        ensures
            *r == self.value(),
    {
        let _ = guard;
        &self.contents
    }

    /// Reads the payload under the write view.
    pub fn read_mut(&self, guard: &WriteGuard) -> (r: &T)
        requires
            self.wf(),
            self.state() is Exclusive,
        ensures
            *r == self.value(),
    {
        let _ = guard;
        &self.contents
    }

    /// Grants mutable access to the payload under the write view.
    pub fn get_mut(&mut self, guard: &WriteGuard) -> (r: &mut T)
        requires
            old(self).wf(),
            old(self).state() is Exclusive,
        ensures
            *r == old(self).value(),
            final(self).value() == *final(r),
            final(self).state() is Exclusive,
            final(self).wf(),
    {
        let _ = guard;
        &mut self.contents
    }

    /// Releases one read view, stepping `Shared(n)` down and reaching `Free`
    /// at zero outstanding views.
    pub fn release_read(&mut self, guard: ReadGuard)
        requires
            old(self).wf(),
            old(self).state() matches BorrowState::Shared(n),
        ensures
            final(self).wf(),
            final(self).value() == old(self).value(),
            final(self).state() == after_release_read(old(self).state()),
    {
        let _ = guard;
        self.readers = self.readers - 1;
    }

    /// Releases the write view, returning the cell to `Free`.
    pub fn release_write(&mut self, guard: WriteGuard)
        requires
            old(self).wf(),
            old(self).state() is Exclusive,
        ensures
            final(self).wf(),
            final(self).value() == old(self).value(),
            final(self).state() is Free,
    {
        let _ = guard;
        self.writing = false;
    }

    /// Replaces the payload under the write view, returning the old payload.
    pub fn replace(&mut self, guard: &WriteGuard, value: T) -> (r: T)
        requires
            old(self).wf(),
            old(self).state() is Exclusive,
        ensures
            final(self).wf(),
            final(self).state() is Exclusive,
            final(self).value() == value,
            r == old(self).value(),
    {
        let _ = guard;
        let mut taken = value;
        core::mem::swap(&mut taken, &mut self.contents);
        taken
    }
}

} // verus!
