use ownership::functional::Iterators;

#[test]
fn iterator_demonstration() {
    let v1 = vec![1, 2, 3];

    let mut v1_iter = v1.iter();

    assert_eq!(v1_iter.next(), Some(&1));
    assert_eq!(v1_iter.next(), Some(&2));
    assert_eq!(v1_iter.next(), Some(&3));
    assert_eq!(v1_iter.next(), None);
}

#[test]
fn iterator_sum() {
    let v1 = vec![1, 2, 3];

    let v1_iter = v1.iter();

    let total: i32 = v1_iter.sum();

    assert_eq!(total, 6);
}

#[test]
fn verified_sum_matches() {
    let v: Vec<i32> = vec![1, 2, 3];
    assert_eq!(Iterators::sum(&v), 6);
    let empty: Vec<i32> = Vec::new();
    assert_eq!(Iterators::sum(&empty), 0);
    let mixed: Vec<i32> = vec![i32::MAX, i32::MIN, -1];
    assert_eq!(Iterators::sum(&mixed), -2);
}

#[test]
fn map_add_one_shifts_each_element() {
    let v: Vec<i32> = vec![7, 8, 9];
    assert_eq!(Iterators::map_add_one(&v), vec![8, 9, 10]);
}
