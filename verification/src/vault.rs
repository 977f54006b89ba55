//! Custody vault: deposits anyone may make, withdrawals that an authorized
//! party makes by burning a one-time commitment.

pub mod error;
pub mod state;
pub mod books;
pub mod instructions;
