//! Resources available to the current process.
//!
//! A process on Linux has two books kept about its memory: the control
//! group counts what the kernel has handed out and where the ceiling is,
//! and the heap allocator counts what it has mapped and what live
//! allocations occupy. This crate reconciles the two into one picture:
//! how much memory the process may use, is using, and has left.
//!
//! The crate itself never touches the system. A caller gathers the four
//! leaf values into a [`Readings`] and asks a [`Resource`] for its
//! `limit`, `used` or `available` figure.
//!
//! Note that `r.used(..) + r.available(..)` may not equal `r.limit(..)`:
//! the figures come from two accounting systems that are never quite
//! in step.

pub mod allocator_stats;
pub mod cgroup;
pub mod errors;
pub mod laws;
pub mod resource;

pub use allocator_stats::allocator_stats_enabled;
pub use errors::{ErrorKind, ErrorView, Outcome, Reading};
pub use resource::{AllocatorSnapshot, OsSnapshot, Readings, ReadingsView, Resource};
