//! Notes on advanced traits, functions and closures, types, macros and the
//! unsafe superpowers — each rendered in the safe, checked form this library
//! keeps to.

use vstd::prelude::*;
use vstd::string::StringExecFns;

verus! {

/// Notes on advanced traits.
#[derive(Debug)]
pub struct AdvancedTraits {}

/// The worked operand type for operator overloading.
#[derive(Debug, Clone, Copy, PartialEq, Eq, Structural)]
pub struct Point {
    pub x: i32,
    pub y: i32,
}

impl Point {
    /// Componentwise addition, the meaning given to `+` in the notes.
    pub fn add(self, other: Point) -> (r: Point)
        requires
            i32::MIN <= self.x + other.x <= i32::MAX,
            i32::MIN <= self.y + other.y <= i32::MAX,
        ensures
            r.x == self.x + other.x,
            r.y == self.y + other.y,
    {
        Point { x: self.x + other.x, y: self.y + other.y }
    }
}

/// A length in millimetres.
#[derive(Debug, Clone, Copy)]
pub struct Millimeters(pub u32);

/// A length in metres.
#[derive(Debug, Clone, Copy)]
pub struct Meters(pub u32);

impl Millimeters {
    /// Addition across units: metres scale by a thousand.
    pub fn add(self, other: Meters) -> (r: Millimeters)
        requires
            self.0 + other.0 * 1000 <= u32::MAX,
        ensures
            r.0 == self.0 + other.0 * 1000,
    {
        Millimeters(self.0 + other.0 * 1000)
    }
}

/// A pilot's view of flying, one of two traits sharing a method name.
pub trait Pilot {
    /// The bearer's title in this role.
    fn title(&self) -> String;
}

/// A wizard's view of flying, the other trait sharing the method name.
pub trait Wizard {
    /// The bearer's title in this role.
    fn title(&self) -> String;
}

/// Someone who is pilot and wizard at once; qualified syntax picks the role.
#[derive(Debug)]
pub struct Human {}

impl Pilot for Human {
    fn title(&self) -> String {
        String::from_str("Captain")
    }
}

impl Wizard for Human {
    fn title(&self) -> String {
        String::from_str("Master")
    }
}

impl Human {
    /// The name used when no trait is named: the inherent one wins.
    pub fn name() -> (r: String)
        ensures
            r@ == "Mr"@,
    {
        String::from_str("Mr")
    }
}

/// Notes on advanced functions and closures.
#[derive(Debug)]
pub struct AdvancedFnClosure {}

impl AdvancedFnClosure {
    /// The successor function the notes pass around by pointer.
    pub fn add_one(x: i32) -> (r: i32)
        requires
            x < i32::MAX,
        ensures
            r == x + 1,
    {
        x + 1
    }

    /// Applies the successor twice and sums the results, as `do_twice` does
    /// with a function pointer for its argument.
    pub fn do_twice_add_one(arg: i32) -> (r: i32)
        requires
            -1000 <= arg <= 1000,
        ensures
            r == 2 * (arg + 1),
    {
        Self::add_one(arg) + Self::add_one(arg)
    }
}

/// Notes on advanced types.
#[derive(Debug)]
pub struct AdvancedTypes {}

/// A type synonym: kilometres are `i32` under another name.
pub type Kilometers = i32;

impl AdvancedTypes {
    /// Synonyms mix freely with their underlying type.
    pub fn add_distances(x: i32, y: Kilometers) -> (r: i32)
        requires
            i32::MIN <= x + y <= i32::MAX,
        ensures
            r == x + y,
    {
        x + y
    }
}

/// Notes on macros. A declarative macro expands to code like
/// [`Macros::vec_of_three`]'s body: here the expansion is written by hand and
/// verified like any other function.
#[derive(Debug)]
pub struct Macros {}

impl Macros {
    /// What a small vector-building macro invocation expands to.
    pub fn vec_of_three() -> (r: Vec<i32>)
        ensures
            r@ == seq![1i32, 2i32, 3i32],
    {
        let mut temp_vec: Vec<i32> = Vec::new();
        temp_vec.push(1);
        temp_vec.push(2);
        temp_vec.push(3);
        proof {
            assert(temp_vec@ =~= seq![1i32, 2i32, 3i32]);
        }
        temp_vec
    }
}

/// Notes on unsafe superpowers, kept in their safe renderings: the global
/// mutable counter becomes an explicitly passed reference, and the foreign
/// absolute value is computed at home.
#[derive(Debug)]
pub struct UnsafeRust {}

impl UnsafeRust {
    /// Adds to a counter passed explicitly, in place of a mutable static.
    pub fn add_to_count(counter: &mut u32, inc: u32)
        requires
            *old(counter) + inc <= u32::MAX,
        ensures
            *final(counter) == *old(counter) + inc,
    {
        *counter = *counter + inc;
    }

    /// The absolute value the notes import from a foreign library, computed
    /// safely; the one value with no counterpart is excluded.
    pub fn abs(input: i32) -> (r: i32)
        requires
            input != i32::MIN,
        ensures
            r == if input < 0 {
                -input
            } else {
                input as int
            },
    {
        if input < 0 {
            -input
        } else {
            input
        }
    }
}

} // verus!
