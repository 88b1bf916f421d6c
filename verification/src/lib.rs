//! A minimal deterministic state-transition engine: independent state
//! modules (a block/nonce ledger, a balance ledger, and a claim registry)
//! composed by a runtime that executes ordered batches of signed
//! operations ("blocks") under explicit sequencing invariants.

pub mod balances;
pub mod proof_of_existence;
pub mod runtime;
pub mod str_map;
pub mod support;
pub mod system;
