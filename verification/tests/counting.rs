use ownership::atomic_counter::AtomicSharedCounter;
use ownership::pointers::RCPointers;
use ownership::shared_counter::SharedCounter;

#[test]
fn strong_count_follows_clone_and_drop() {
    let (mut block, a) = SharedCounter::new(String::from("shared"));
    assert_eq!(block.strong_count(), 1);

    let b = block.clone_handle(&a);
    assert_eq!(block.strong_count(), 2);
    let c = block.clone_handle(&b);
    assert_eq!(block.strong_count(), 3);
    assert_eq!(block.get(&c), "shared");

    block.drop_handle(b);
    assert_eq!(block.strong_count(), 2);
    block.drop_handle(a);
    assert_eq!(block.strong_count(), 1);
    assert_eq!(block.get(&c), "shared");

    block.drop_handle(c);
    assert_eq!(block.strong_count(), 0);
}

#[test]
fn observed_counts_of_the_walkthrough() {
    assert_eq!(RCPointers::strong_count_walkthrough(), vec![1, 2, 3, 4, 3]);
}

#[test]
fn atomic_counts_follow_the_same_discipline() {
    let (mut block, a) = AtomicSharedCounter::new(7u64);
    assert_eq!(block.strong_count(), 1);
    let b = block.clone_handle(&a);
    let c = block.clone_handle(&a);
    assert_eq!(block.strong_count(), 3);
    assert_eq!(*block.get(&b), 7);

    *block.get_mut(&c) = 8;
    assert_eq!(*block.get(&a), 8);

    block.drop_handle(a);
    block.drop_handle(b);
    assert_eq!(block.strong_count(), 1);
    block.drop_handle(c);
    assert_eq!(block.strong_count(), 0);
}
