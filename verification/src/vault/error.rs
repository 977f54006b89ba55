//! The ways a vault operation is refused.

use vstd::prelude::*;

verus! {

#[derive(Clone, Copy, Debug, PartialEq, Eq, Structural)]
pub enum VaultError {
    /// The caller holds no role that allows the operation.
    Unauthorized,
    /// The vault is paused.
    VaultPaused,
    /// The commitment was consumed by an earlier withdrawal.
    CommitmentAlreadyUsed,
    /// The tracked balance is smaller than the amount asked for.
    InsufficientBalance,
    /// The amount is zero.
    InvalidAmount,
    /// The recipient cannot receive.
    InvalidRecipient,
    /// No transfer of authority is pending.
    NoPendingTransfer,
    /// The default identity cannot become the authority.
    InvalidPendingAuthority,
    /// A balance or a counter would exceed 64 bits.
    Overflow,
    /// The commitment is malformed.
    InvalidCommitment,
}

impl VaultError {
    /// The message shown for the error.
    pub fn message(&self) -> (text: &'static str)
        ensures
            text@ == match *self {
                VaultError::Unauthorized => "Unauthorized access"@,
                VaultError::VaultPaused => "Vault is paused"@,
                VaultError::CommitmentAlreadyUsed => "Commitment already used"@,
                VaultError::InsufficientBalance => "Insufficient balance"@,
                VaultError::InvalidAmount => "Invalid amount (must be > 0)"@,
                VaultError::InvalidRecipient => "Invalid recipient"@,
                VaultError::NoPendingTransfer => "No pending authority transfer"@,
                VaultError::InvalidPendingAuthority => "Invalid pending authority"@,
                VaultError::Overflow => "Arithmetic overflow"@,
                VaultError::InvalidCommitment => "Invalid commitment"@,
            },
    {
        match self {
            VaultError::Unauthorized => "Unauthorized access",
            VaultError::VaultPaused => "Vault is paused",
            VaultError::CommitmentAlreadyUsed => "Commitment already used",
            VaultError::InsufficientBalance => "Insufficient balance",
            VaultError::InvalidAmount => "Invalid amount (must be > 0)",
            VaultError::InvalidRecipient => "Invalid recipient",
            VaultError::NoPendingTransfer => "No pending authority transfer",
            VaultError::InvalidPendingAuthority => "Invalid pending authority",
            VaultError::Overflow => "Arithmetic overflow",
            VaultError::InvalidCommitment => "Invalid commitment",
        }
    }
}

} // verus!
