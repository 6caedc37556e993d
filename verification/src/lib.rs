//! Deterministic batch-execution kernel for a modular rollup: admits an
//! ordered batch of raw transactions from a sequencer, verifies and dispatches
//! each transaction in order through a hook lifecycle, and atomically commits
//! or fully reverts the batch's effects on transactional state, rewarding the
//! sequencer only on commit.

pub mod auth;
pub mod bank;
pub mod config;
pub mod controller;
pub mod hooks;
pub mod laws;
pub mod registry;
pub mod state;
