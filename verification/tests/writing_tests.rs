use ownership::testing::WritingTests;

#[test]
fn exploration() {
    assert_eq!(2 + 2, 4);
}

#[test]
fn test_assert() {
    assert!(1 < 2);
}

#[test]
fn it_adds_two() {
    assert_eq!(4, WritingTests::add_two(2));
}

#[test]
fn it_adds_two2() {
    assert_ne!(5, WritingTests::add_two(2));
}

#[test]
fn test_result() -> Result<(), String> {
    let res = WritingTests::use_result(2)?;
    Ok(res)
}

#[test]
fn test_is_err() {
    let res = WritingTests::use_result(4);
    assert!(res.is_err());
}

#[test]
fn use_result_error_message() {
    match WritingTests::use_result(7) {
        Err(e) => assert_eq!(e, "two plus two does not equal four"),
        Ok(_) => panic!("7 plus two is not four"),
    }
}

#[test]
fn between_one_hundred_in_range() {
    assert_eq!(WritingTests::between_one_hundred(1), 1);
    assert_eq!(WritingTests::between_one_hundred(55), 55);
    assert_eq!(WritingTests::between_one_hundred(100), 100);
}
