//! A last-in-first-out stack of `i32` values, kept as a singly linked chain
//! of heap nodes in which every node owns the rest of the chain.
//!
//! [`List`] is the stack itself. Its contracts are stated over a `Seq<i32>`
//! that lists the stored values from the bottom of the stack to the top; the
//! module [`lifo`] describes pushing and popping on such sequences and proves
//! the ordering laws that follow.

pub mod lifo;
pub mod list;

pub use list::List;
