//! Authorization core of a commitment-based settlement and custody system.
//!
//! The crate keeps the books of three closely related ledgers: a settlement
//! ledger that stores a rotating Merkle root and settles commitments against
//! it, a custody vault whose withdrawals burn one-time commitments, and a
//! privacy vault whose claims burn one-time nullifiers. Moving value itself is
//! left to the host: operations that move value return the [`transfer::Transfer`]
//! that the host has to carry out.

pub mod identity;
pub mod digest;
pub mod merkle;
pub mod gate;
pub mod journal;
pub mod transfer;
pub mod authority;
pub mod vault;
pub mod settlement;
pub mod obscura_vault;
pub mod fuzz;
