//! Notes on writing, controlling and organizing tests, with the small
//! arithmetic subjects the tests exercise.

use vstd::prelude::*;
use vstd::string::StringExecFns;

verus! {

/// Notes on how tests are written.
#[derive(Debug)]
pub struct WritingTests {}

/// Notes on how test runs are controlled.
#[derive(Debug)]
pub struct ControllingTests {}

/// Notes on how tests are organized into unit and integration suites.
#[derive(Debug)]
pub struct OrganizingTests {}

impl WritingTests {
    /// Adds two.
    pub fn add_two(a: i32) -> (r: i32)
        requires
            a + 2 <= i32::MAX,
        ensures
            r == a + 2,
    {
        a + 2
    }

    /// Accepts a guess between 1 and 100; anything else is a caller error,
    /// ruled out up front rather than failing loudly at run time.
    pub fn between_one_hundred(value: i32) -> (r: i32)
        requires
            1 <= value <= 100,
        ensures
            r == value,
    {
        value
    }

    /// Reports whether two plus the argument makes four, as a result value.
    pub fn use_result(a: i32) -> (r: Result<(), String>)
        requires
            a + 2 <= i32::MAX,
        ensures
            r is Ok <==> a == 2,
            r matches Err(e) ==> e@ == "two plus two does not equal four"@,
    {
        if WritingTests::add_two(a) == 4 {
            Ok(())
        } else {
            Err(String::from_str("two plus two does not equal four"))
        }
    }
}

} // verus!
