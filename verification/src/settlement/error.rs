//! The ways a settlement operation is refused.

use vstd::prelude::*;

verus! {

#[derive(Clone, Copy, Debug, PartialEq, Eq, Structural)]
pub enum SipError {
    /// The caller holds no role that allows the operation.
    Unauthorized,
    /// The proof does not lead from the commitment to the current root.
    InvalidProof,
    /// The commitment was settled before.
    CommitmentAlreadyUsed,
    /// The root is all zero.
    InvalidRoot,
    /// The executor set is full.
    MaxExecutorsReached,
    /// The identity is not an executor.
    ExecutorNotFound,
    /// The identity is an executor already.
    ExecutorAlreadyExists,
    /// The proof has more siblings than the deepest tree.
    ProofTooLong,
    /// The proof has no sibling.
    EmptyProof,
    /// The default identity cannot become the authority.
    InvalidPendingAuthority,
    /// No transfer of authority is pending.
    NoPendingTransfer,
}

impl SipError {
    /// The message shown for the error.
    pub fn message(&self) -> (text: &'static str)
        ensures
            text@ == match *self {
                SipError::Unauthorized => "Unauthorized: caller is not an authorized executor"@,
                SipError::InvalidProof => "Invalid Merkle proof"@,
                SipError::CommitmentAlreadyUsed => "Commitment has already been used"@,
                SipError::InvalidRoot => "Invalid root: cannot be zero"@,
                SipError::MaxExecutorsReached => "Maximum executors reached"@,
                SipError::ExecutorNotFound => "Executor not found"@,
                SipError::ExecutorAlreadyExists => "Executor already exists"@,
                SipError::ProofTooLong => "Proof too long: maximum depth is 32"@,
                SipError::EmptyProof => "Proof is empty"@,
                SipError::InvalidPendingAuthority => "Invalid pending authority"@,
                SipError::NoPendingTransfer => "No pending authority transfer"@,
            },
    {
        match self {
            SipError::Unauthorized => "Unauthorized: caller is not an authorized executor",
            SipError::InvalidProof => "Invalid Merkle proof",
            SipError::CommitmentAlreadyUsed => "Commitment has already been used",
            SipError::InvalidRoot => "Invalid root: cannot be zero",
            SipError::MaxExecutorsReached => "Maximum executors reached",
            SipError::ExecutorNotFound => "Executor not found",
            SipError::ExecutorAlreadyExists => "Executor already exists",
            SipError::ProofTooLong => "Proof too long: maximum depth is 32",
            SipError::EmptyProof => "Proof is empty",
            SipError::InvalidPendingAuthority => "Invalid pending authority",
            SipError::NoPendingTransfer => "No pending authority transfer",
        }
    }
}

} // verus!
