use ownership::concurrency_notes::{Mutexes, Threads};
use ownership::lock::Lock;

#[test]
fn ten_holders_each_add_one() {
    assert_eq!(Mutexes::locked_counter_walkthrough(), 10);
}

#[test]
fn acquire_and_release_round_trip() {
    let mut lock = Lock::new(5);
    let guard = lock.acquire().expect("a fresh lock is not poisoned");
    assert_eq!(*lock.read(&guard), 5);
    lock.set(&guard, 6);
    lock.release(guard);
    assert!(!lock.is_poisoned());

    let guard = lock.acquire().expect("released and still clean");
    assert_eq!(*lock.read(&guard), 6);
    *lock.get_mut(&guard) += 1;
    assert_eq!(*lock.read(&guard), 7);
    lock.release(guard);
}

#[test]
fn abnormal_exit_poisons_but_still_yields_access() {
    let mut lock = Lock::new(String::from("half-written"));

    // Holder A terminates abnormally while holding the guard.
    let guard_a = lock.acquire().expect("fresh lock");
    lock.release_poisoned(guard_a);
    assert!(lock.is_poisoned());

    // Holder B is told about the poisoning but still gets a usable guard.
    let err = lock.acquire().expect_err("poisoned lock reports it");
    let guard_b = err.into_guard();
    assert_eq!(*lock.read(&guard_b), "half-written");
    lock.set(&guard_b, String::from("repaired"));
    lock.release(guard_b);

    // Poisoning is permanent.
    assert!(lock.is_poisoned());
    let err = lock.acquire().expect_err("still poisoned");
    let guard_c = err.into_guard();
    assert_eq!(*lock.read(&guard_c), "repaired");
    lock.release(guard_c);
}

#[test]
fn moved_counter_quiz_is_two() {
    assert_eq!(Threads::moved_counter_quiz(), 2);
}
