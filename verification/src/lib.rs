//! A three-party escrow ledger module for a federated e-cash system.
//!
//! A buyer locks value in an escrow contract, a seller can claim it by
//! revealing a secret code, and an arbiter resolves disputes subject to a
//! capped fee. Every guardian of the federation runs the same deterministic
//! state machine over the contract store, so all honest guardians reach the
//! same accept-or-reject outcome on every instruction.

pub mod client;
pub mod common;
pub mod config;
pub mod crypto;
pub mod db;
pub mod endpoints;
pub mod laws;
pub mod server;
