//! A minimal deterministic state-transition runtime: account balances,
//! per-account transaction counters and a registry of content claims,
//! advanced by executing blocks of caller-attributed calls.
pub mod balances;
pub mod proof_of_existence;
pub mod runtime;
pub mod storage;
pub mod support;
pub mod system;
pub mod types;
