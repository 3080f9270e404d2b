//! Verified core of an on-chain "clicker" game.
//!
//! The crate covers the two pieces with real logic: the instruction decoder,
//! which turns an opaque byte buffer into one of four typed commands, and the
//! state-transition engine, which validates a derived account address, loads a
//! fixed-size per-user record, applies one transition rule and writes the
//! record back.  Allocation, rent funding and signature checking belong to the
//! surrounding ledger host and stay outside this crate.

pub mod error;
pub mod instruction;
pub mod processor;
pub mod state;
