//! Notes on threads, message passing and shared-state concurrency.
//!
//! The scenarios here are the sequential hearts of the threaded walkthroughs:
//! the decisions each thread makes — what to send, when a channel counts as
//! closed, how a lock-guarded counter is bumped — are verified functions,
//! while spawning, joining and blocking belong to the runtime around the
//! library.

use vstd::prelude::*;
use vstd::string::StringExecFns;
use crate::atomic_counter::{AtomicHandle, AtomicSharedCounter};
use crate::channel::make_channel;
use crate::lock::Lock;

verus! {

/// Notes on running code on threads.
#[derive(Debug)]
pub struct Threads {}

impl Threads {
    /// The closure-capture quiz: an integer is copied into the thread, so
    /// the increments inside it never touch the outer variable, and the main
    /// thread's own increment leaves exactly 2.
    pub fn moved_counter_quiz() -> (r: i32)
        ensures
            r == 2,
    {
        let mut n: i32 = 1;
        let mut thread_n: i32 = n;
        thread_n = thread_n + 1;
        let mut inner_thread_n: i32 = thread_n;
        inner_thread_n = inner_thread_n + 1;
        let _ = inner_thread_n;
        n = n + 1;
        n
    }
}

/// Notes on message passing between threads.
#[derive(Debug)]
pub struct Messages {}

impl Messages {
    /// What the sending thread enqueues and the receiver collects: the four
    /// greetings, in the order sent.
    pub fn collect_four() -> (r: Vec<String>)
        ensures
            r@.len() == 4,
            r@[0]@ == "hi"@,
            r@[1]@ == "from"@,
            r@[2]@ == "the"@,
            r@[3]@ == "thread"@,
    {
        let (mut ch, tx, rx) = make_channel::<String>();
        let _ = ch.send(&tx, String::from_str("hi"));
        let _ = ch.send(&tx, String::from_str("from"));
        let _ = ch.send(&tx, String::from_str("the"));
        let _ = ch.send(&tx, String::from_str("thread"));
        ch.drop_sender(tx);
        let out = ch.recv_all(&rx);
        out
    }
}

/// Notes on shared-state concurrency.
#[derive(Debug)]
pub struct Mutexes {}

impl Mutexes {
    /// The shared counter of the notes: a lock around 0, its handle cloned
    /// ten times, each holder acquiring the lock, adding 1 and releasing.
    /// Once every extra handle is dropped again, the payload reads 10.
    pub fn locked_counter_walkthrough() -> (r: u64)
        ensures
            r == 10,
    {
        let (mut shared, main_handle) = AtomicSharedCounter::<Lock<u64>>::new(Lock::new(0u64));
        let mut handles: Vec<AtomicHandle> = Vec::new();
        let mut i: usize = 0;
        while i < 10
            invariant
                shared.wf(),
                shared.holds(main_handle),
                i <= 10,
                shared.strong() == 1 + i,
                handles@.len() == i,
                forall|j: int| 0 <= j < i ==> shared.holds(handles@[j]),
                forall|j: int| 0 <= j < i ==> handles@[j].id() != main_handle.id(),
                forall|j: int, k: int|
                    0 <= j < k < i ==> handles@[j].id() != handles@[k].id(),
                shared.payload_value() matches Some(l) && l.value() == 0 && !l.locked()
                    && !l.poisoned(),
            decreases 10 - i,
        {
            let h = shared.clone_handle(&main_handle);
            handles.push(h);
            i = i + 1;
        }
        let mut t: usize = 0;
        while t < 10
            invariant
                shared.wf(),
                shared.holds(main_handle),
                t <= 10,
                shared.strong() == 11,
                handles@.len() == 10,
                forall|j: int| 0 <= j < 10 ==> shared.holds(handles@[j]),
                forall|j: int| 0 <= j < 10 ==> handles@[j].id() != main_handle.id(),
                forall|j: int, k: int|
                    0 <= j < k < 10 ==> handles@[j].id() != handles@[k].id(),
                shared.payload_value() matches Some(l) && l.value() == t && !l.locked()
                    && !l.poisoned(),
            decreases 10 - t,
        {
            let lk = shared.get_mut(&handles[t]);
            let guard = match lk.acquire() {
                Ok(g) => g,
                Err(e) => e.into_guard(),
            };
            let cur = *lk.read(&guard);
            lk.set(&guard, cur + 1);
            lk.release(guard);
            t = t + 1;
        }
        let mut d: usize = 0;
        while d < 10
            invariant
                shared.wf(),
                shared.holds(main_handle),
                d <= 10,
                shared.strong() == 11 - d,
                handles@.len() == 10 - d,
                forall|j: int| 0 <= j < handles@.len() ==> shared.holds(handles@[j]),
                forall|j: int|
                    0 <= j < handles@.len() ==> handles@[j].id() != main_handle.id(),
                forall|j: int, k: int|
                    0 <= j < k < handles@.len() ==> handles@[j].id() != handles@[k].id(),
                shared.payload_value() matches Some(l) && l.value() == 10 && !l.locked()
                    && !l.poisoned(),
            decreases 10 - d,
        {
            match handles.pop() {
                Some(h) => {
                    shared.drop_handle(h);
                },
                None => {
                    vstd::pervasive::unreached::<()>();
                },
            }
            d = d + 1;
        }
        let lk = shared.get_mut(&main_handle);
        let guard = match lk.acquire() {
            Ok(g) => g,
            Err(e) => e.into_guard(),
        };
        let result = *lk.read(&guard);
        lk.release(guard);
        shared.drop_handle(main_handle);
        result
    }
}

} // verus!
