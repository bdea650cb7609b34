//! Singly-linked LIFO stacks, verified against contracts over sequences.
//!
//! [`first`] holds a stack of `i32` whose link is an explicit two-variant enum.
//! [`second`] holds the generic stack, with peeking and three kinds of
//! traversal. Both release their chain in a loop when they are dropped.
//!
//! Every stack is modelled by the sequence of its elements from the head down.
//! [`model`] defines what pushing and popping mean on such a sequence, and
//! proves the laws that follow, the LIFO law among them.

pub mod first;
pub mod model;
pub mod second;
