//! An in-memory to-do list service core: a store that numbers items from one
//! upward in insertion order, a lock-guarded shared form of it, and the
//! cross-origin decisions of its HTTP binding.

pub mod http;
pub mod item;
pub mod laws;
pub mod shared;
pub mod store;
