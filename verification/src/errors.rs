//! Notes on error handling: unrecoverable panics and recoverable results.

use vstd::prelude::*;

verus! {

/// Notes on unrecoverable errors. This library's verified functions do not
/// panic: inputs a function cannot serve are excluded by contract instead.
#[derive(Debug)]
pub struct Panics {}

/// Notes on recoverable errors carried in result values.
#[derive(Debug)]
pub struct Results {}

impl Results {
    /// Division as a result: the divide-by-zero case becomes an `Err` to
    /// handle rather than a failure, and success is owed everywhere else.
    pub fn checked_div(a: u64, b: u64) -> (r: Result<u64, ()>)
        ensures
            b != 0 ==> r == Ok::<u64, ()>(a / b),
            b == 0 ==> r is Err,
    {
        if b == 0 {
            Err(())
        } else {
            Ok(a / b)
        }
    }

    /// Propagation: the first failure in a chain of fallible steps is handed
    /// to the caller, the way the question-mark operator returns early.
    pub fn sum_of_halves(a: u64, b: u64) -> (r: Result<u64, ()>)
        ensures
            r == Ok::<u64, ()>((a / 2 + b / 2) as u64),
    {
        let x = match Self::checked_div(a, 2) {
            Ok(v) => v,
            Err(e) => {
                return Err(e);
            },
        };
        let y = match Self::checked_div(b, 2) {
            Ok(v) => v,
            Err(e) => {
                return Err(e);
            },
        };
        Ok(x + y)
    }
}

} // verus!
