//! The records a vault keeps.

use vstd::prelude::*;
use crate::authority::Seat;
use crate::identity::{zero_bytes, Identity};
use crate::transfer::Transfer;

verus! {

/// The books of one vault.
#[derive(Clone, Copy, Debug, PartialEq, Eq)]
pub struct VaultState {
    /// The owner.
    pub authority: Identity,
    /// The party to whom the owner has offered the vault; the default
    /// identity while no offer stands.
    pub pending_authority: Identity,
    /// The settlement delegate, who may authorize withdrawals beside the owner.
    pub settlement: Identity,
    /// Native value in custody: what was deposited less what was withdrawn.
    pub sol_balance: u64,
    /// The number of deposits made.
    pub deposit_nonce: u64,
    /// The number of withdrawals made.
    pub withdrawal_nonce: u64,
    /// While set, deposits and withdrawals are refused.
    pub paused: bool,
    /// The bump seed of the address at which the host stores the books.
    pub bump: u8,
}

impl VaultState {
    /// Bytes the host needs to store the books.
    pub const LEN: usize = 8 + 32 + 32 + 32 + 8 + 8 + 8 + 1 + 1;

    /// The owner and the pending owner.
    pub open spec fn seat(&self) -> Seat {
        Seat { owner: self.authority@, pending: self.pending_authority@ }
    }

    /// The vault has an owner: the default identity is nobody.
    pub open spec fn owner_is_set(&self) -> bool {
        self.authority@ != zero_bytes()
    }

    /// Whether `id` may authorize withdrawals: the owner and the settlement
    /// delegate may.
    pub open spec fn authorizes(&self, id: Seq<u8>) -> bool {
        id == self.authority@ || id == self.settlement@
    }

    /// Whether `pubkey` may authorize withdrawals.
    pub fn is_authorized(&self, pubkey: &Identity) -> (authorized: bool)
        ensures
            authorized == self.authorizes(pubkey@),
    {
        pubkey.same(&self.authority) || pubkey.same(&self.settlement)
    }
}

/// The record of the withdrawal that consumed a commitment.
#[derive(Clone, Copy, Debug, PartialEq, Eq)]
pub struct UsedCommitment {
    /// The commitment consumed.
    pub commitment: [u8; 32],
    /// When it was consumed.
    pub used_at: i64,
    /// Who made the withdrawal.
    pub executor: Identity,
    /// The amount withdrawn.
    pub amount: u64,
    /// Who received it.
    pub recipient: Identity,
    /// The bump seed of the address at which the host stores the record.
    pub bump: u8,
}

impl UsedCommitment {
    /// Bytes the host needs to store the record.
    pub const LEN: usize = 8 + 32 + 8 + 32 + 8 + 32 + 1;
}

/// The receipt of one deposit.
#[derive(Clone, Copy, Debug, PartialEq, Eq)]
pub struct DepositRecord {
    /// The commitment computed for the deposit.
    pub commitment: [u8; 32],
    /// Who deposited.
    pub depositor: Identity,
    /// The amount deposited.
    pub amount: u64,
    /// The asset deposited; the default identity stands for native value.
    pub token_mint: Identity,
    /// When the deposit was made.
    pub deposited_at: i64,
    /// The sequence number of the deposit.
    pub nonce: u64,
    /// The bump seed of the address at which the host stores the record.
    pub bump: u8,
}

impl DepositRecord {
    /// Bytes the host needs to store the record.
    pub const LEN: usize = 8 + 32 + 32 + 8 + 32 + 8 + 8 + 1;
}

/// The books of one token held in custody.
#[derive(Clone, Copy, Debug, PartialEq, Eq)]
pub struct TokenVault {
    /// The token.
    pub mint: Identity,
    /// The account that holds the tokens.
    pub token_account: Identity,
    /// Tokens in custody: what was deposited less what was withdrawn.
    pub balance: u64,
    /// The bump seed of the address at which the host stores the books.
    pub bump: u8,
}

impl TokenVault {
    /// Bytes the host needs to store the books.
    pub const LEN: usize = 8 + 32 + 32 + 8 + 1;
}

/// What a deposit leaves behind: its receipt, and the transfer that brings
/// the value into custody.
#[derive(Clone, Copy, Debug, PartialEq, Eq)]
pub struct Deposit {
    pub record: DepositRecord,
    pub transfer: Transfer,
}

/// What a withdrawal leaves behind: the record of the consumed commitment,
/// and the transfer that hands the value out.
#[derive(Clone, Copy, Debug, PartialEq, Eq)]
pub struct Withdrawal {
    pub record: UsedCommitment,
    pub transfer: Transfer,
}

} // verus!
