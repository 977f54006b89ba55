//! Privacy vault: deposits against a commitment, claims that burn a
//! one-time nullifier, so that a claim shows the relayer and the recipient
//! and not the depositor.

use vstd::prelude::*;
use crate::gate::CommitmentGate;
use crate::identity::{zero_bytes, Identity};
use crate::transfer::Transfer;

verus! {

/// The ways an operation of the privacy vault is refused.
#[derive(Clone, Copy, Debug, PartialEq, Eq, Structural)]
pub enum ErrorCode {
    /// The nullifier was consumed by an earlier claim.
    NullifierAlreadyUsed,
    /// The caller is not the owner.
    Unauthorized,
    /// The caller is not the relayer.
    UnauthorizedRelayer,
    /// The vault is paused.
    VaultPaused,
    /// The amount is zero.
    ZeroAmount,
}

impl ErrorCode {
    /// The message shown for the error.
    pub fn message(&self) -> (text: &'static str)
        ensures
            text@ == match *self {
                ErrorCode::NullifierAlreadyUsed => "Nullifier already used - possible double-spend"@,
                ErrorCode::Unauthorized => "Unauthorized - not authority"@,
                ErrorCode::UnauthorizedRelayer => "Unauthorized relayer"@,
                ErrorCode::VaultPaused => "Vault is paused"@,
                ErrorCode::ZeroAmount => "Amount must be greater than zero"@,
            },
    {
        match self {
            ErrorCode::NullifierAlreadyUsed => "Nullifier already used - possible double-spend",
            ErrorCode::Unauthorized => "Unauthorized - not authority",
            ErrorCode::UnauthorizedRelayer => "Unauthorized relayer",
            ErrorCode::VaultPaused => "Vault is paused",
            ErrorCode::ZeroAmount => "Amount must be greater than zero",
        }
    }
}

/// The books of one privacy vault.
#[derive(Clone, Copy, Debug, PartialEq, Eq)]
pub struct VaultState {
    /// The owner.
    pub authority: Identity,
    /// The relayer, who claims on behalf of depositors.
    pub relayer: Identity,
    /// The number of deposits made.
    pub total_deposits: u64,
    /// The number of claims made.
    pub total_claims: u64,
    /// The commitment of the latest claim; all zero before the first.
    pub last_commitment: [u8; 32],
    /// The nullifier of the latest claim that burnt one; all zero before
    /// the first.
    pub last_nullifier: [u8; 32],
    /// The bump seed of the address at which the host stores the books.
    pub bump: u8,
    /// While set, deposits and claims are refused.
    pub paused: bool,
}

impl VaultState {
    /// The vault has an owner: the default identity is nobody.
    pub open spec fn owner_is_set(&self) -> bool {
        self.authority@ != zero_bytes()
    }
}

/// The log record of a deposit.
#[derive(Clone, Copy, Debug, PartialEq, Eq)]
pub struct DepositEvent {
    pub commitment: [u8; 32],
    pub amount: u64,
    pub timestamp: i64,
}

/// The log record of a claim.
#[derive(Clone, Copy, Debug, PartialEq, Eq)]
pub struct ClaimEvent {
    pub nullifier_hash: [u8; 32],
    pub recipient: Identity,
    pub amount: u64,
    pub timestamp: i64,
}

/// The log record of a claim made by the relayer.
#[derive(Clone, Copy, Debug, PartialEq, Eq)]
pub struct RelayerClaimEvent {
    pub relayer: Identity,
    pub nullifier_hash: [u8; 32],
    pub recipient: Identity,
    pub amount: u64,
    pub timestamp: i64,
}

/// The record of the claim that consumed a nullifier.
#[derive(Clone, Copy, Debug, PartialEq, Eq)]
pub struct UsedNullifier {
    /// The nullifier consumed.
    pub nullifier_hash: [u8; 32],
    /// Who made the claim.
    pub claimer: Identity,
    /// Who received the amount.
    pub recipient: Identity,
    /// The amount claimed.
    pub amount: u64,
    /// When it was claimed.
    pub used_at: i64,
}

/// What a deposit leaves behind: its log record, and the transfer that
/// brings the value into custody.
#[derive(Clone, Copy, Debug, PartialEq, Eq)]
pub struct Deposited {
    pub event: DepositEvent,
    pub transfer: Transfer,
}

/// What a claim leaves behind: its log record, and the transfer that hands
/// the value out.
#[derive(Clone, Copy, Debug, PartialEq, Eq)]
pub struct Claimed {
    pub event: ClaimEvent,
    pub transfer: Transfer,
}

/// What a claim by the relayer leaves behind: its log record, and the
/// transfer that hands the value out.
#[derive(Clone, Copy, Debug, PartialEq, Eq)]
pub struct RelayerClaimed {
    pub event: RelayerClaimEvent,
    pub transfer: Transfer,
}

/// Whether `transfer` moves `amount` of native value from `from` into
/// custody.
pub open spec fn brings_in(transfer: Transfer, from: Identity, amount: u64) -> bool {
    &&& transfer matches Transfer::IntoCustody { from: payer, asset, amount: sum }
    &&& payer == from
    &&& asset@ == zero_bytes()
    &&& sum == amount
}

/// Whether `transfer` moves `amount` of native value out of custody to `to`.
pub open spec fn hands_out(transfer: Transfer, to: Identity, amount: u64) -> bool {
    &&& transfer matches Transfer::OutOfCustody { to: payee, asset, amount: sum }
    &&& payee == to
    &&& asset@ == zero_bytes()
    &&& sum == amount
}

/// Why a deposit or a claim by the owner is refused; `None` where it is
/// accepted.
pub open spec fn movement_refusal(paused: bool, amount: u64) -> Option<ErrorCode> {
    if paused {
        Some(ErrorCode::VaultPaused)
    } else if amount == 0 {
        Some(ErrorCode::ZeroAmount)
    } else {
        None
    }
}

/// Why a claim that burns a nullifier is refused; `None` where it is
/// accepted. `consumed` says whether the nullifier was consumed before.
pub open spec fn claim_refusal(paused: bool, amount: u64, consumed: bool) -> Option<ErrorCode> {
    if paused {
        Some(ErrorCode::VaultPaused)
    } else if amount == 0 {
        Some(ErrorCode::ZeroAmount)
    } else if consumed {
        Some(ErrorCode::NullifierAlreadyUsed)
    } else {
        None
    }
}

/// Replay protection: a nullifier that was consumed by any earlier claim,
/// not only by the latest, never pays out again, and where nothing else is
/// wrong the error is `NullifierAlreadyUsed`.
pub proof fn a_consumed_nullifier_is_refused(paused: bool, amount: u64)
    ensures
        claim_refusal(paused, amount, true) is Some,
        !paused && amount > 0 ==> claim_refusal(paused, amount, true) == Some(ErrorCode::NullifierAlreadyUsed),
{
}

/// Opens the books of a vault owned by `authority`, who is somebody and is
/// also its first relayer: nothing counted, not paused.
pub fn initialize(authority: Identity, bump: u8) -> (state: VaultState)
    requires
        authority@ != zero_bytes(),
    ensures
        state.owner_is_set(),
        state == (VaultState {
            authority,
            relayer: authority,
            total_deposits: 0,
            total_claims: 0,
            last_commitment: state.last_commitment,
            last_nullifier: state.last_nullifier,
            bump,
            paused: false,
        }),
        state.last_commitment@ == zero_bytes(),
        state.last_nullifier@ == zero_bytes(),
{
    let state = VaultState {
        authority,
        relayer: authority,
        total_deposits: 0,
        total_claims: 0,
        last_commitment: [0u8; 32],
        last_nullifier: [0u8; 32],
        bump,
        paused: false,
    };
    assert(state.last_commitment@ =~= zero_bytes());
    assert(state.last_nullifier@ =~= zero_bytes());
    state
}

/// Names a new relayer. Only the owner may: any other `signer` is refused
/// with `Unauthorized`.
pub fn set_relayer(state: &mut VaultState, signer: &Identity, new_relayer: Identity) -> (result: Result<
    (),
    ErrorCode,
>)
    ensures
        old(state).owner_is_set() ==> final(state).owner_is_set(),
        signer@ == old(state).authority@ ==> result is Ok && *final(state) == (VaultState {
            relayer: new_relayer,
            ..*old(state)
        }),
        signer@ != old(state).authority@ ==> result == Err::<(), ErrorCode>(ErrorCode::Unauthorized)
            && *final(state) == *old(state),
{
    if !signer.same(&state.authority) {
        return Err(ErrorCode::Unauthorized);
    }
    state.relayer = new_relayer;
    Ok(())
}

/// Deposits `amount` of native value for `depositor` against `commitment`
/// at time `now`.
///
/// Refused with `VaultPaused` while the vault is paused, else with
/// `ZeroAmount` for a zero amount. Otherwise the deposit is counted. The log
/// record names the commitment and not the depositor.
pub fn deposit(state: &mut VaultState, depositor: Identity, amount: u64, commitment: [u8; 32], now: i64) -> (result:
    Result<Deposited, ErrorCode>)
    requires
        old(state).total_deposits < u64::MAX,
    ensures
        old(state).owner_is_set() ==> final(state).owner_is_set(),
        match result {
            Ok(deposited) => {
                &&& movement_refusal(old(state).paused, amount) is None
                &&& *final(state) == (VaultState {
                    total_deposits: (old(state).total_deposits + 1) as u64,
                    ..*old(state)
                })
                &&& deposited.event == (DepositEvent { commitment, amount, timestamp: now })
                &&& brings_in(deposited.transfer, depositor, amount)
            },
            Err(error) => {
                &&& movement_refusal(old(state).paused, amount) == Some(error)
                &&& *final(state) == *old(state)
            },
        },
{
    if state.paused {
        return Err(ErrorCode::VaultPaused);
    }
    if amount == 0 {
        return Err(ErrorCode::ZeroAmount);
    }
    state.total_deposits += 1;
    Ok(
        Deposited {
            event: DepositEvent { commitment, amount, timestamp: now },
            transfer: Transfer::IntoCustody { from: depositor, asset: Identity::zero(), amount },
        },
    )
}

/// Claims `amount` for `recipient` by burning `nullifier_hash`. Anyone who
/// holds an unused nullifier may claim: `claimer` is recorded, not checked.
///
/// Refused with `VaultPaused` while the vault is paused, else with
/// `ZeroAmount` for a zero amount, else with `NullifierAlreadyUsed` where the
/// nullifier was consumed by any earlier claim. A refused claim consumes
/// nothing. Otherwise the nullifier is consumed, the claim is counted, and
/// the nullifier and `commitment` are noted as the latest.
pub fn claim(
    state: &mut VaultState,
    nullifiers: &mut CommitmentGate<UsedNullifier>,
    claimer: Identity,
    recipient: Identity,
    amount: u64,
    commitment: [u8; 32],
    nullifier_hash: [u8; 32],
    now: i64,
) -> (result: Result<Claimed, ErrorCode>)
    requires
        old(state).total_claims < u64::MAX,
    ensures
        old(state).owner_is_set() ==> final(state).owner_is_set(),
        match result {
            Ok(claimed) => {
                &&& claim_refusal(old(state).paused, amount, old(nullifiers).consumed(nullifier_hash@)) is None
                &&& *final(state) == (VaultState {
                    total_claims: (old(state).total_claims + 1) as u64,
                    last_nullifier: nullifier_hash,
                    last_commitment: commitment,
                    ..*old(state)
                })
                &&& final(nullifiers)@ == old(nullifiers)@.insert(
                    nullifier_hash@,
                    UsedNullifier { nullifier_hash, claimer, recipient, amount, used_at: now },
                )
                &&& claimed.event == (ClaimEvent { nullifier_hash, recipient, amount, timestamp: now })
                &&& hands_out(claimed.transfer, recipient, amount)
            },
            Err(error) => {
                &&& claim_refusal(old(state).paused, amount, old(nullifiers).consumed(nullifier_hash@))
                    == Some(error)
                &&& *final(state) == *old(state)
                &&& final(nullifiers)@ == old(nullifiers)@
            },
        },
{
    if state.paused {
        return Err(ErrorCode::VaultPaused);
    }
    if amount == 0 {
        return Err(ErrorCode::ZeroAmount);
    }
    let record = UsedNullifier { nullifier_hash, claimer, recipient, amount, used_at: now };
    if nullifiers.consume(nullifier_hash, record).is_err() {
        return Err(ErrorCode::NullifierAlreadyUsed);
    }
    state.total_claims += 1;
    state.last_nullifier = nullifier_hash;
    state.last_commitment = commitment;
    Ok(
        Claimed {
            event: ClaimEvent { nullifier_hash, recipient, amount, timestamp: now },
            transfer: Transfer::OutOfCustody { to: recipient, asset: Identity::zero(), amount },
        },
    )
}

/// Claims `amount` for `recipient` on the owner's word, without a
/// nullifier: the way out for emergencies.
///
/// Refused with `Unauthorized` unless `signer` is the owner, else with
/// `VaultPaused` while the vault is paused, else with `ZeroAmount` for a zero
/// amount. Otherwise the claim is counted and `commitment` is noted as the
/// latest.
pub fn authority_claim(
    state: &mut VaultState,
    signer: &Identity,
    recipient: Identity,
    amount: u64,
    commitment: [u8; 32],
) -> (result: Result<Transfer, ErrorCode>)
    requires
        old(state).total_claims < u64::MAX,
    ensures
        old(state).owner_is_set() ==> final(state).owner_is_set(),
        signer@ != old(state).authority@ ==> result == Err::<Transfer, ErrorCode>(ErrorCode::Unauthorized)
            && *final(state) == *old(state),
        signer@ == old(state).authority@ ==> match result {
            Ok(transfer) => {
                &&& movement_refusal(old(state).paused, amount) is None
                &&& *final(state) == (VaultState {
                    total_claims: (old(state).total_claims + 1) as u64,
                    last_commitment: commitment,
                    ..*old(state)
                })
                &&& hands_out(transfer, recipient, amount)
            },
            Err(error) => {
                &&& movement_refusal(old(state).paused, amount) == Some(error)
                &&& *final(state) == *old(state)
            },
        },
{
    if !signer.same(&state.authority) {
        return Err(ErrorCode::Unauthorized);
    }
    if state.paused {
        return Err(ErrorCode::VaultPaused);
    }
    if amount == 0 {
        return Err(ErrorCode::ZeroAmount);
    }
    state.total_claims += 1;
    state.last_commitment = commitment;
    Ok(Transfer::OutOfCustody { to: recipient, asset: Identity::zero(), amount })
}

/// Claims `amount` for `recipient` by burning `nullifier_hash`, on behalf
/// of a depositor whom the claim does not name.
///
/// Refused with `UnauthorizedRelayer` unless `relayer` is the vault's
/// relayer; then on the same grounds, in the same order, as [`claim`].
/// Otherwise the nullifier is consumed, the claim is counted, and the
/// nullifier and `commitment` are noted as the latest.
pub fn relayer_claim(
    state: &mut VaultState,
    nullifiers: &mut CommitmentGate<UsedNullifier>,
    relayer: &Identity,
    recipient: Identity,
    amount: u64,
    commitment: [u8; 32],
    nullifier_hash: [u8; 32],
    now: i64,
) -> (result: Result<RelayerClaimed, ErrorCode>)
    requires
        old(state).total_claims < u64::MAX,
    ensures
        old(state).owner_is_set() ==> final(state).owner_is_set(),
        relayer@ != old(state).relayer@ ==> result == Err::<RelayerClaimed, ErrorCode>(
            ErrorCode::UnauthorizedRelayer,
        ) && *final(state) == *old(state) && final(nullifiers)@ == old(nullifiers)@,
        relayer@ == old(state).relayer@ ==> match result {
            Ok(claimed) => {
                &&& claim_refusal(old(state).paused, amount, old(nullifiers).consumed(nullifier_hash@)) is None
                &&& *final(state) == (VaultState {
                    total_claims: (old(state).total_claims + 1) as u64,
                    last_nullifier: nullifier_hash,
                    last_commitment: commitment,
                    ..*old(state)
                })
                &&& final(nullifiers)@ == old(nullifiers)@.insert(
                    nullifier_hash@,
                    UsedNullifier { nullifier_hash, claimer: *relayer, recipient, amount, used_at: now },
                )
                &&& claimed.event == (RelayerClaimEvent {
                    relayer: *relayer,
                    nullifier_hash,
                    recipient,
                    amount,
                    timestamp: now,
                })
                &&& hands_out(claimed.transfer, recipient, amount)
            },
            Err(error) => {
                &&& claim_refusal(old(state).paused, amount, old(nullifiers).consumed(nullifier_hash@))
                    == Some(error)
                &&& *final(state) == *old(state)
                &&& final(nullifiers)@ == old(nullifiers)@
            },
        },
{
    if !relayer.same(&state.relayer) {
        return Err(ErrorCode::UnauthorizedRelayer);
    }
    if state.paused {
        return Err(ErrorCode::VaultPaused);
    }
    if amount == 0 {
        return Err(ErrorCode::ZeroAmount);
    }
    let record = UsedNullifier { nullifier_hash, claimer: *relayer, recipient, amount, used_at: now };
    if nullifiers.consume(nullifier_hash, record).is_err() {
        return Err(ErrorCode::NullifierAlreadyUsed);
    }
    state.total_claims += 1;
    state.last_nullifier = nullifier_hash;
    state.last_commitment = commitment;
    Ok(
        RelayerClaimed {
            event: RelayerClaimEvent { relayer: *relayer, nullifier_hash, recipient, amount, timestamp: now },
            transfer: Transfer::OutOfCustody { to: recipient, asset: Identity::zero(), amount },
        },
    )
}

/// Pauses the vault. Only the owner may: any other `signer` is refused with
/// `Unauthorized`.
pub fn pause(state: &mut VaultState, signer: &Identity) -> (result: Result<(), ErrorCode>)
    ensures
        old(state).owner_is_set() ==> final(state).owner_is_set(),
        signer@ == old(state).authority@ ==> result is Ok && *final(state) == (VaultState {
            paused: true,
            ..*old(state)
        }),
        signer@ != old(state).authority@ ==> result == Err::<(), ErrorCode>(ErrorCode::Unauthorized)
            && *final(state) == *old(state),
{
    if !signer.same(&state.authority) {
        return Err(ErrorCode::Unauthorized);
    }
    state.paused = true;
    Ok(())
}

/// Lifts the pause. Only the owner may: any other `signer` is refused with
/// `Unauthorized`.
pub fn unpause(state: &mut VaultState, signer: &Identity) -> (result: Result<(), ErrorCode>)
    ensures
        old(state).owner_is_set() ==> final(state).owner_is_set(),
        signer@ == old(state).authority@ ==> result is Ok && *final(state) == (VaultState {
            paused: false,
            ..*old(state)
        }),
        signer@ != old(state).authority@ ==> result == Err::<(), ErrorCode>(ErrorCode::Unauthorized)
            && *final(state) == *old(state),
{
    if !signer.same(&state.authority) {
        return Err(ErrorCode::Unauthorized);
    }
    state.paused = false;
    Ok(())
}

} // verus!
