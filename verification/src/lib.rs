//! Verified ownership and concurrency primitives.
//!
//! The heart of the crate is a small set of runtime primitives with explicit,
//! machine-checked state machines:
//!
//! * [`exclusive_box::ExclusiveBox`] — single-owner heap indirection;
//! * [`borrow_cell::BorrowCell`] — a dynamically borrow-checked cell granting
//!   either many read views or one write view, enforced at call time;
//! * [`shared_counter::SharedCounter`] — single-threaded shared ownership with
//!   an explicit strong count;
//! * [`atomic_counter::AtomicSharedCounter`] — the cross-thread variant of the
//!   same counting discipline;
//! * [`lock::Lock`] — mutual exclusion with poisoning;
//! * [`channel::Channel`] — a multi-producer, single-consumer FIFO queue.
//!
//! The counting discipline the two shared-ownership types have in common is
//! stated once more, abstractly and over whole operation sequences, in
//! [`counting`].
//!
//! Around the primitives stand small note modules, each a worked set of
//! verified functions on a classic language topic (control flow, structs,
//! enums, collections, generics, and so on); their printing front end lives
//! outside the verified library.

pub mod advanced;
pub mod atomic_counter;
pub mod basics;
pub mod borrow_cell;
pub mod channel;
pub mod collections;
pub mod concurrency_notes;
pub mod counting;
pub mod enums;
pub mod errors;
pub mod exclusive_box;
pub mod functional;
pub mod generics_notes;
pub mod lock;
pub mod ownership_notes;
pub mod pointers;
pub mod shared_counter;
pub mod structs;
pub mod testing;
pub mod widgets;
