//! Notes on smart pointers: heap boxes, deref, drop, reference counting and
//! run-time borrow checking, each pointing at the primitive that carries the
//! corresponding discipline in this crate.

use vstd::prelude::*;
use vstd::string::StringExecFns;
use crate::exclusive_box::ExclusiveBox;
use crate::shared_counter::SharedCounter;

verus! {

/// Notes on pointing to data on the heap.
#[derive(Debug)]
pub struct PointersToHeap {}

/// A cons list, the recursive type a box makes representable.
#[derive(Debug)]
pub enum List {
    Cons(i32, Box<List>),
    Nil,
}

/// The number of elements a list holds.
pub open spec fn list_len(l: List) -> nat
    decreases l,
{
    match l {
        List::Nil => 0,
        List::Cons(_, rest) => 1 + list_len(*rest),
    }
}

impl PointersToHeap {
    /// Five, boxed: the payload lives on the heap, the sole owner on the stack.
    pub fn boxed_five() -> (r: ExclusiveBox<i32>)
        ensures
            r.value() == 5,
    {
        ExclusiveBox::new(5)
    }

    /// The three-element list 1, 2, 3.
    pub fn one_two_three() -> (r: List)
        ensures
            list_len(r) == 3,
    {
        let r = List::Cons(
            1,
            Box::new(List::Cons(2, Box::new(List::Cons(3, Box::new(List::Nil))))),
        );
        proof {
            reveal_with_fuel(list_len, 4);
        }
        r
    }
}

/// Notes on treating smart pointers like references through deref.
#[derive(Debug)]
pub struct DerefTrait {}

/// A box of our own, a tuple struct around its pointee.
#[derive(Debug)]
pub struct MyBox<T>(pub T);

impl<T> MyBox<T> {
    /// Wraps a value.
    pub fn new(x: T) -> (r: MyBox<T>)
        ensures
            r.0 == x,
    {
        MyBox(x)
    }

    /// Follows the pointer to the pointee, what the deref operator does.
    pub fn get(&self) -> (r: &T)
        ensures
            *r == self.0,
    {
        &self.0
    }
}

/// Notes on running code on cleanup.
#[derive(Debug)]
pub struct DropTrait {}

/// The notes' custom pointer, whose cleanup announces the data it carried;
/// the announcement itself is the front end's affair.
#[derive(Debug)]
pub struct CustomSmartPointer {
    pub data: String,
}

impl CustomSmartPointer {
    /// Wraps the given data.
    pub fn new(data: String) -> (r: Self)
        ensures
            r.data == data,
    {
        CustomSmartPointer { data }
    }
}

/// Notes on reference-counted pointers.
#[derive(Debug)]
pub struct RCPointers {}

impl RCPointers {
    /// The strong counts observed while sharing one list head: 1 after
    /// creation, 2 and 3 after two clones, 4 inside a scope holding a third,
    /// and 3 again once that scope's handle is dropped.
    pub fn strong_count_walkthrough() -> (r: Vec<usize>)
        ensures
            r@ == seq![1usize, 2usize, 3usize, 4usize, 3usize],
    {
        let mut counts: Vec<usize> = Vec::new();
        let (mut a, a_handle) = SharedCounter::new(String::from_str("head"));
        counts.push(a.strong_count());
        let b = a.clone_handle(&a_handle);
        counts.push(a.strong_count());
        let c = a.clone_handle(&a_handle);
        counts.push(a.strong_count());
        let d = a.clone_handle(&a_handle);
        counts.push(a.strong_count());
        a.drop_handle(d);
        counts.push(a.strong_count());
        let _ = b;
        let _ = c;
        proof {
            assert(counts@ =~= seq![1usize, 2usize, 3usize, 4usize, 3usize]);
        }
        counts
    }
}

/// Notes on interior mutability; the run-time borrow machine itself is
/// [`crate::borrow_cell::BorrowCell`].
#[derive(Debug)]
pub struct RefCellPointers {}

} // verus!
