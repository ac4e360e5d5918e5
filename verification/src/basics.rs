//! Notes on variables, data types, functions and control flow.

use vstd::prelude::*;

verus! {

/// Notes on variables and mutability.
#[derive(Debug)]
pub struct VarMutability {}

/// Seconds in one hour, a constant usable in any scope.
pub const ONE_HOUR_IN_SECONDS: u32 = 60 * 60;

impl VarMutability {
    /// Seconds in the given number of hours.
    pub fn seconds_in(hours: u32) -> (r: u32)
        requires
            hours * 3600 <= u32::MAX,
        ensures
            r == hours * 3600,
    {
        ONE_HOUR_IN_SECONDS * hours
    }

    /// Shadowing: each `let` introduces a new binding over the old name, so
    /// five becomes six and then, in an inner scope, twelve.
    pub fn shadowed() -> (r: (u32, u32))
        ensures
            r.0 == 12,
            r.1 == 6,
    {
        let y: u32 = 5;
        let y: u32 = y + 1;
        let inner: u32 = {
            let y: u32 = y * 2;
            y
        };
        (inner, y)
    }
}

/// Notes on scalar and compound data types.
#[derive(Debug)]
pub struct DataTypes {}

impl DataTypes {
    /// Mutating a tuple element by element.
    pub fn tuple_mutation() -> (r: (i32, i32))
        ensures
            r.0 == 0,
            r.1 == 7,
    {
        let mut x: (i32, i32) = (1, 2);
        x.0 = 0;
        x.1 = x.1 + 5;
        x
    }

    /// Reading an array built with the repeat syntax.
    pub fn array_repeat_first() -> (r: i32)
        ensures
            r == 3,
    {
        let a: [i32; 5] = [3; 5];
        a[0]
    }
}

/// Notes on functions, statements and expressions.
#[derive(Debug)]
pub struct Functions {}

impl Functions {
    /// A function whose body is one expression.
    pub fn five() -> (r: i32)
        ensures
            r == 5,
    {
        5
    }

    /// The successor, the return value being the final expression.
    pub fn plus_one(x: i32) -> (r: i32)
        requires
            x < i32::MAX,
        ensures
            r == x + 1,
    {
        x + 1
    }

    /// A block is an expression: its value is its last expression.
    pub fn block_expression() -> (r: i32)
        ensures
            r == 4,
    {
        let y: i32 = {
            let x: i32 = 3;
            x + 1
        };
        y
    }
}

/// Notes on `if`, `loop`, `while` and `for`.
#[derive(Debug)]
pub struct ControlFlow {}

impl ControlFlow {
    /// `if` is an expression, so its value can be bound.
    pub fn if_value(condition: bool) -> (r: i32)
        ensures
            r == if condition {
                5int
            } else {
                6int
            },
    {
        if condition {
            5
        } else {
            6
        }
    }

    /// Counts to ten and returns double the counter.
    pub fn loop_result() -> (r: i32)
        ensures
            r == 20,
    {
        let mut counter: i32 = 0;
        while counter < 10
            invariant
                0 <= counter <= 10,
            decreases 10 - counter,
        {
            counter = counter + 1;
        }
        counter * 2
    }

    /// Which of 4, 3 and 2 divides `number`, tried in that order: 4 and 3
    /// answer their own value, 2 answers 2, and 1 stands for none of them.
    pub fn divisibility(number: u32) -> (r: u32)
        ensures
            r == if number % 4 == 0 {
                4int
            } else if number % 3 == 0 {
                3int
            } else if number % 2 == 0 {
                2int
            } else {
                1int
            },
    {
        if number % 4 == 0 {
            4
        } else if number % 3 == 0 {
            3
        } else if number % 2 == 0 {
            2
        } else {
            1
        }
    }
}

} // verus!
