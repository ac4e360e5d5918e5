//! Mutual exclusion with poisoning.
//!
//! A [`Lock`] guards its payload with a one-holder discipline: acquiring it
//! yields a [`LockGuard`] granting exclusive access, and releasing the guard
//! unlocks it again. A holder that terminates abnormally releases through
//! [`Lock::release_poisoned`], which marks the lock poisoned for good; later
//! acquisitions then report a [`PoisonError`] but still yield the guard, so
//! the caller decides whether to trust the payload.
//!
//! Acquisition order among contenders is unspecified, but exclusion is
//! absolute: [`lemma_mutual_exclusion`] proves that over every interleaving
//! of acquisitions and releases at most one guard is ever out, and
//! [`lemma_poisoning_is_permanent`] that a poisoned lock never recovers.
//!
//! Blocking itself is the runtime's affair: a thread that finds the lock held
//! simply waits to retry, so the contracts here describe the acquisition that
//! eventually goes through, from the unlocked state.

use vstd::prelude::*;

verus! {

/// The one outstanding right of exclusive access to a lock's payload.
#[derive(Debug)]
pub struct LockGuard {
    granted: (),
}

/// A prior holder terminated abnormally while holding the lock. The guard is
/// still granted; the payload may be mid-update, and the caller chooses
/// whether to proceed.
#[derive(Debug)]
pub struct PoisonError {
    guard: LockGuard,
}

impl PoisonError {
    /// Accepts the possibly inconsistent payload and takes the guard anyway.
    pub fn into_guard(self) -> LockGuard {
        self.guard
    }
}

/// A mutual-exclusion lock around a payload.
pub struct Lock<T> {
    contents: T,
    locked: bool,
    poisoned: bool,
}

impl<T> Lock<T> {
    /// Whether a guard is currently out.
    pub closed spec fn locked(self) -> bool {
        self.locked
    }

    /// Whether a holder ever terminated abnormally while holding the lock.
    pub closed spec fn poisoned(self) -> bool {
        self.poisoned
    }

    /// The payload.
    pub closed spec fn value(self) -> T {
        self.contents
    }

    /// Wraps `value` in a fresh lock: unlocked and unpoisoned.
    pub fn new(value: T) -> (l: Self)
        ensures
            !l.locked(),
            !l.poisoned(),
            l.value() == value,
    {
        Lock { contents: value, locked: false, poisoned: false }
    }

    /// Takes the lock once it is free, yielding the guard. On a poisoned lock
    /// the guard comes wrapped in a [`PoisonError`] — access is still
    /// granted, the caller decides whether to trust the payload.
    pub fn acquire(&mut self) -> (r: Result<LockGuard, PoisonError>)
        requires
            !old(self).locked(),
        ensures
            final(self).locked(),
            final(self).poisoned() == old(self).poisoned(),
            final(self).value() == old(self).value(),
            r is Ok <==> !old(self).poisoned(),
    {
        self.locked = true;
        if self.poisoned {
            Err(PoisonError { guard: LockGuard { granted: () } })
        } else {
            Ok(LockGuard { granted: () })
        }
    }

    /// Releases the guard on a normal exit path: the lock is unlocked again,
    /// its poison flag untouched.
    pub fn release(&mut self, guard: LockGuard)
        requires
            old(self).locked(),
        ensures
            !final(self).locked(),
            final(self).poisoned() == old(self).poisoned(),
            final(self).value() == old(self).value(),
    {
        let _ = guard;
        self.locked = false;
    }

    /// Releases the guard of a holder that terminated abnormally: the lock is
    /// unlocked so others can still acquire it, and marked poisoned for good.
    pub fn release_poisoned(&mut self, guard: LockGuard)
        requires
            old(self).locked(),
        ensures
            !final(self).locked(),
            final(self).poisoned(),
            final(self).value() == old(self).value(),
    {
        let _ = guard;
        self.locked = false;
        self.poisoned = true;
    }

    /// Whether a prior holder terminated abnormally while holding the lock.
    pub fn is_poisoned(&self) -> (r: bool)
        ensures
            r == self.poisoned(),
    {
        self.poisoned
    }

    /// Reads the payload under the guard.
    pub fn read(&self, guard: &LockGuard) -> (r: &T)
        requires
            self.locked(),
        ensures
            *r == self.value(),
    {
        let _ = guard;
        &self.contents
    }

    /// Overwrites the payload under the guard.
    pub fn set(&mut self, guard: &LockGuard, value: T)
        requires
            old(self).locked(),
        ensures
            final(self).locked(),
            final(self).poisoned() == old(self).poisoned(),
            final(self).value() == value,
    {
        let _ = guard;
        self.contents = value;
    }

    /// Grants mutable access to the payload under the guard.
    pub fn get_mut(&mut self, guard: &LockGuard) -> (r: &mut T)
        requires
            old(self).locked(),
        ensures
            *r == old(self).value(),
            final(self).value() == *final(r),
            final(self).locked(),
            final(self).poisoned() == old(self).poisoned(),
    {
        let _ = guard;
        &mut self.contents
    }
}

/// One request against a lock: taking it, or releasing it on a normal or an
/// abnormal exit path.
pub enum LockOp {
    Acquire,
    Release,
    ReleaseAbnormal,
}

/// The abstract lock machine: its state together with the guards actually out.
pub struct LockMachine {
    pub locked: bool,
    pub poisoned: bool,
    pub guards: nat,
}

/// The machine as a fresh lock starts.
pub open spec fn lock_machine_init() -> LockMachine {
    LockMachine { locked: false, poisoned: false, guards: 0 }
}

/// How one request moves the machine. Acquiring a held lock blocks — the
/// machine does not move until the holder releases — and a release without an
/// outstanding guard changes nothing.
pub open spec fn lock_machine_step(m: LockMachine, op: LockOp) -> LockMachine {
    match op {
        LockOp::Acquire => if !m.locked {
            LockMachine { locked: true, guards: m.guards + 1, ..m }
        } else {
            m
        },
        LockOp::Release => if m.guards > 0 {
            LockMachine { locked: false, guards: (m.guards - 1) as nat, ..m }
        } else {
            m
        },
        LockOp::ReleaseAbnormal => if m.guards > 0 {
            LockMachine { locked: false, poisoned: true, guards: (m.guards - 1) as nat }
        } else {
            m
        },
    }
}

/// The machine after a whole sequence of requests, oldest first.
pub open spec fn lock_machine_run(ops: Seq<LockOp>) -> LockMachine
    decreases ops.len(),
{
    if ops.len() == 0 {
        lock_machine_init()
    } else {
        lock_machine_step(lock_machine_run(ops.drop_last()), ops.last())
    }
}

/// The machine's invariant: the lock is held exactly while one guard is out.
pub open spec fn lock_machine_inv(m: LockMachine) -> bool {
    m.guards == if m.locked {
        1nat
    } else {
        0nat
    }
}

/// Mutual exclusion is absolute: over every interleaving of acquisitions and
/// releases, at most one guard exists at a time.
pub proof fn lemma_mutual_exclusion(ops: Seq<LockOp>)
    ensures
        lock_machine_inv(lock_machine_run(ops)),
        lock_machine_run(ops).guards <= 1,
    decreases ops.len(),
{
    if ops.len() > 0 {
        lemma_mutual_exclusion(ops.drop_last());
    }
}

/// The poison flag is permanent: once a holder has terminated abnormally, no
/// later request clears it.
pub proof fn lemma_poisoning_is_permanent(ops: Seq<LockOp>, more: Seq<LockOp>)
    requires
        lock_machine_run(ops).poisoned,
    ensures
        lock_machine_run(ops + more).poisoned,
    decreases more.len(),
{
    if more.len() == 0 {
        assert(ops + more =~= ops);
    } else {
        lemma_poisoning_is_permanent(ops, more.drop_last());
        assert((ops + more).drop_last() =~= ops + more.drop_last());
        assert((ops + more).last() == more.last());
    }
}

} // verus!
