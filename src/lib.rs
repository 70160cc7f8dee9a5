//! A permissioned contribution-reward ledger.
//!
//! An owner approves contributions for contributors who registered a handle;
//! each approved contributor may then claim a fixed reward exactly once.
//! The host environment (caller identity, persistence, events, transfers)
//! stays outside: every operation takes the caller as an argument and returns
//! the notification it produced.

pub mod types;
pub mod errors;
pub mod ownable;
pub mod registry;
pub mod events;
pub mod decisions;
pub mod workflow;
pub mod demo;
pub mod laws;
