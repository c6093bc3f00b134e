//! Singly linked LIFO stacks with an iterative teardown.
//!
//! `first` holds a stack of `i32` values over a two-armed link enum;
//! `second` holds a generic stack over `Option<Box<_>>` links, with peeking
//! and three traversals (consuming, shared and exclusive).
pub mod first;
pub mod lifo;
pub mod second;
