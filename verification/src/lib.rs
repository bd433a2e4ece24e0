//! A minimal level-triggered control-plane reconciler for virtual machines.
//!
//! The engine compares a declared desired configuration for each VM against
//! its observed state and drives the observed state toward the desired one,
//! one permitted lifecycle transition per tick, while accounting for finite
//! CPU and memory capacity on a pool of hosts.
//!
//! - [`state`]: the VM lifecycle state machine and its transition graph.
//! - [`vm`]: the desired and observed per-VM records.
//! - [`host`]: the host registry, capacity checks, first-fit placement, and
//!   reserve/release bookkeeping.
//! - [`engine`]: the action planner and the action executor.
//! - [`laws`]: system-wide invariants and the proofs that planning and
//!   execution preserve them.

pub mod engine;
pub mod host;
pub mod laws;
pub mod state;
pub mod vm;
