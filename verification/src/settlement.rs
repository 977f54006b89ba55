//! Settlement ledger: a rotating Merkle root, the executors who may rotate
//! it, and the one-time settlement of commitments proved against it.

pub mod error;
pub mod state;
pub mod instructions;
