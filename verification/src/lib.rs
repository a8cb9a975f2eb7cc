//! A first-in, first-out queue kept in two stacks.
//!
//! Values are pushed onto an inbound stack. They are popped from an outbound
//! stack, which is refilled from the inbound one, in reverse, whenever it
//! runs dry. Every value therefore changes stacks at most once, and a run of
//! `n` operations costs `O(n)` stack operations in total.
pub mod laws;
pub mod model;
pub mod queue;
pub mod script;

pub use queue::Queue;
