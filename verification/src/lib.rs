//! Core logic of a mount-point monitor.
//!
//! A fixed set of filesystem paths is watched; each reconciliation cycle
//! derives a per-path mount status, folds the statuses into a two-valued
//! aggregate state (`AllMounted` / `NotAllMounted`), and decides whether a
//! command must be dispatched. All decisions are made here, on plain values;
//! the surrounding binary performs the probing, the watch syscalls and the
//! command execution.

pub mod dispatch;
pub mod monitor;
pub mod probe;
pub mod state;

pub use state::AggregateState;
