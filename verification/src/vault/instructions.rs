//! The operations of the vault.
//!
//! Every operation either succeeds and changes the books as its contract
//! says, or is refused and changes nothing. The checks of an operation are
//! made in a fixed order, and the first that fails names the error.

use vstd::prelude::*;
use crate::authority::{accept, offer, HandoverRefusal};
use crate::digest::{keccak, keccak256, le_bytes, push_bytes32, push_i64_le, push_u64_le, twos_complement};
use crate::gate::CommitmentGate;
use crate::identity::{zero_bytes, Identity};
use crate::journal::Journal;
use crate::transfer::Transfer;
use crate::vault::books::{moves, Movement};
use crate::vault::error::VaultError;
use crate::vault::state::{Deposit, DepositRecord, TokenVault, UsedCommitment, VaultState, Withdrawal};

verus! {

/// The bytes `SIP_DEPOSIT`, which start the preimage of every deposit
/// commitment.
pub open spec fn deposit_tag() -> Seq<u8> {
    seq![0x53u8, 0x49u8, 0x50u8, 0x5fu8, 0x44u8, 0x45u8, 0x50u8, 0x4fu8, 0x53u8, 0x49u8, 0x54u8]
}

/// The bytes hashed into a deposit commitment: the tag, the depositor, the
/// amount, the asset, the sequence number and the time, the numbers as eight
/// little-endian bytes each.
pub open spec fn deposit_preimage(
    depositor: Seq<u8>,
    amount: u64,
    asset: Seq<u8>,
    nonce: u64,
    timestamp: i64,
) -> Seq<u8> {
    deposit_tag() + depositor + le_bytes(amount as nat, 8) + asset + le_bytes(nonce as nat, 8)
        + le_bytes(twos_complement(timestamp), 8)
}

/// The commitment of a deposit.
pub open spec fn deposit_commitment(
    depositor: Seq<u8>,
    amount: u64,
    asset: Seq<u8>,
    nonce: u64,
    timestamp: i64,
) -> Seq<u8> {
    keccak256(deposit_preimage(depositor, amount, asset, nonce, timestamp))
}

/// The vault's error for a refused step of the handover.
pub open spec fn handover_error(refusal: HandoverRefusal) -> VaultError {
    match refusal {
        HandoverRefusal::Unauthorized => VaultError::Unauthorized,
        HandoverRefusal::InvalidTarget => VaultError::InvalidPendingAuthority,
        HandoverRefusal::NoPendingTransfer => VaultError::NoPendingTransfer,
    }
}

/// Why a deposit of `amount` is refused by books that are `paused`, have
/// counted `nonce` deposits and track `balance`; `None` where it is accepted.
pub open spec fn deposit_refusal(paused: bool, nonce: u64, balance: u64, amount: u64) -> Option<VaultError> {
    if paused {
        Some(VaultError::VaultPaused)
    } else if amount == 0 {
        Some(VaultError::InvalidAmount)
    } else if nonce == u64::MAX || balance + amount > u64::MAX {
        Some(VaultError::Overflow)
    } else {
        None
    }
}

/// Why a withdrawal of `amount` is refused; `None` where it is accepted.
/// `authorized` says whether the caller may withdraw, `consumed` whether the
/// commitment was consumed before, `nonce` how many withdrawals were counted.
pub open spec fn withdrawal_refusal(
    authorized: bool,
    paused: bool,
    nonce: u64,
    balance: u64,
    amount: u64,
    consumed: bool,
) -> Option<VaultError> {
    if !authorized {
        Some(VaultError::Unauthorized)
    } else if paused {
        Some(VaultError::VaultPaused)
    } else if amount == 0 {
        Some(VaultError::InvalidAmount)
    } else if consumed {
        Some(VaultError::CommitmentAlreadyUsed)
    } else if balance < amount {
        Some(VaultError::InsufficientBalance)
    } else if nonce == u64::MAX {
        Some(VaultError::Overflow)
    } else {
        None
    }
}

/// Authorization gating: a withdrawal asked by a caller who is neither the
/// owner nor the settlement delegate is refused with `Unauthorized`,
/// whatever else holds of the request and of the books.
pub proof fn an_unauthorized_withdrawal_is_refused(
    state: VaultState,
    caller: Seq<u8>,
    balance: u64,
    amount: u64,
    consumed: bool,
)
    requires
        caller != state.authority@,
        caller != state.settlement@,
    ensures
        withdrawal_refusal(
            state.authorizes(caller),
            state.paused,
            state.withdrawal_nonce,
            balance,
            amount,
            consumed,
        ) == Some(VaultError::Unauthorized),
{
}

/// A withdrawal that the balance does not cover is refused, so that no
/// withdrawal takes the balance below zero.
pub proof fn an_uncovered_withdrawal_is_refused(
    authorized: bool,
    paused: bool,
    nonce: u64,
    balance: u64,
    amount: u64,
    consumed: bool,
)
    requires
        amount > balance,
    ensures
        withdrawal_refusal(authorized, paused, nonce, balance, amount, consumed) is Some,
        authorized && !paused && !consumed ==> withdrawal_refusal(
            authorized,
            paused,
            nonce,
            balance,
            amount,
            consumed,
        ) == Some(VaultError::InsufficientBalance),
{
}

/// Replay protection: a commitment that was consumed before never
/// authorizes a withdrawal again, and an authorized caller who asks for an
/// amount of an open vault is told so, with `CommitmentAlreadyUsed`,
/// whatever the balance.
pub proof fn a_consumed_commitment_is_refused(
    authorized: bool,
    paused: bool,
    nonce: u64,
    balance: u64,
    amount: u64,
)
    ensures
        withdrawal_refusal(authorized, paused, nonce, balance, amount, true) is Some,
        authorized && !paused && amount > 0 ==> withdrawal_refusal(
            authorized,
            paused,
            nonce,
            balance,
            amount,
            true,
        ) == Some(VaultError::CommitmentAlreadyUsed),
{
}

/// While the vault is paused nothing is deposited and nothing withdrawn.
pub proof fn a_paused_vault_moves_nothing(
    authorized: bool,
    nonce: u64,
    balance: u64,
    amount: u64,
    consumed: bool,
)
    ensures
        deposit_refusal(true, nonce, balance, amount) == Some(VaultError::VaultPaused),
        withdrawal_refusal(authorized, true, nonce, balance, amount, consumed) is Some,
        authorized ==> withdrawal_refusal(authorized, true, nonce, balance, amount, consumed) == Some(
            VaultError::VaultPaused,
        ),
{
}

/// Whether `deposit` is what a deposit of `amount` of the asset with the
/// bytes `asset` by `depositor` leaves behind, given its sequence number and
/// time: the receipt with the commitment computed from these, and the
/// transfer of the amount from the depositor into custody.
pub open spec fn is_deposit_of(
    deposit: Deposit,
    depositor: Identity,
    asset: Seq<u8>,
    amount: u64,
    nonce: u64,
    now: i64,
    bump: u8,
) -> bool {
    &&& deposit.record.commitment@ == deposit_commitment(depositor@, amount, asset, nonce, now)
    &&& deposit.record.token_mint@ == asset
    &&& deposit.record == (DepositRecord {
        commitment: deposit.record.commitment,
        depositor,
        amount,
        token_mint: deposit.record.token_mint,
        deposited_at: now,
        nonce,
        bump,
    })
    &&& deposit.transfer == (Transfer::IntoCustody {
        from: depositor,
        asset: deposit.record.token_mint,
        amount,
    })
}

/// Whether `withdrawal` is what a withdrawal of `amount` of the asset with
/// the bytes `asset` to `recipient` leaves behind: the record of the consumed
/// commitment, and the transfer of the amount out of custody to the
/// recipient.
pub open spec fn is_withdrawal_of(
    withdrawal: Withdrawal,
    executor: Identity,
    commitment: [u8; 32],
    asset: Seq<u8>,
    amount: u64,
    recipient: Identity,
    now: i64,
    bump: u8,
) -> bool {
    &&& withdrawal.record == (UsedCommitment { commitment, used_at: now, executor, amount, recipient, bump })
    &&& withdrawal.transfer matches Transfer::OutOfCustody { to, asset: moved, amount: sum }
    &&& to == recipient
    &&& moved@ == asset
    &&& sum == amount
}

/// Builds the bytes that are hashed into a deposit commitment.
pub fn deposit_preimage_bytes(
    depositor: &Identity,
    amount: u64,
    token_mint: &Identity,
    nonce: u64,
    timestamp: i64,
) -> (data: Vec<u8>)
    ensures
        data@ == deposit_preimage(depositor@, amount, token_mint@, nonce, timestamp),
{
    let mut data: Vec<u8> = Vec::with_capacity(128);
    data.push(0x53u8);
    data.push(0x49u8);
    data.push(0x50u8);
    data.push(0x5fu8);
    data.push(0x44u8);
    data.push(0x45u8);
    data.push(0x50u8);
    data.push(0x4fu8);
    data.push(0x53u8);
    data.push(0x49u8);
    data.push(0x54u8);
    assert(data@ =~= deposit_tag());
    push_bytes32(&mut data, &depositor.bytes);
    push_u64_le(&mut data, amount);
    push_bytes32(&mut data, &token_mint.bytes);
    push_u64_le(&mut data, nonce);
    push_i64_le(&mut data, timestamp);
    data
}

/// Computes the commitment of a deposit. It binds the deposit to its
/// sequence number, so that two deposits that agree in everything else still
/// differ in what is hashed.
pub fn compute_deposit_commitment(
    depositor: &Identity,
    amount: u64,
    token_mint: &Identity,
    nonce: u64,
    timestamp: i64,
) -> (commitment: [u8; 32])
    ensures
        commitment@ == deposit_commitment(depositor@, amount, token_mint@, nonce, timestamp),
{
    let data = deposit_preimage_bytes(depositor, amount, token_mint, nonce, timestamp);
    keccak(data.as_slice())
}

/// Opens the books of a vault owned by `authority`, who is somebody and is
/// also its first settlement delegate: nothing in custody, nothing counted,
/// not paused.
pub fn initialize(authority: Identity, bump: u8) -> (state: VaultState)
    requires
        authority@ != zero_bytes(),
    ensures
        state.owner_is_set(),
        state == (VaultState {
            authority,
            pending_authority: state.pending_authority,
            settlement: authority,
            sol_balance: 0,
            deposit_nonce: 0,
            withdrawal_nonce: 0,
            paused: false,
            bump,
        }),
        state.pending_authority@ == zero_bytes(),
{
    VaultState {
        authority,
        pending_authority: Identity::zero(),
        settlement: authority,
        sol_balance: 0,
        deposit_nonce: 0,
        withdrawal_nonce: 0,
        paused: false,
        bump,
    }
}

fn receipt(depositor: Identity, asset: Identity, amount: u64, nonce: u64, now: i64, bump: u8) -> (deposit:
    Deposit)
    ensures
        is_deposit_of(deposit, depositor, asset@, amount, nonce, now, bump),
{
    let commitment = compute_deposit_commitment(&depositor, amount, &asset, nonce, now);
    Deposit {
        record: DepositRecord {
            commitment,
            depositor,
            amount,
            token_mint: asset,
            deposited_at: now,
            nonce,
            bump,
        },
        transfer: Transfer::IntoCustody { from: depositor, asset, amount },
    }
}

/// Deposits `amount` of native value for `depositor` at time `now`.
///
/// Refused with `VaultPaused` while the vault is paused, else with
/// `InvalidAmount` for a zero amount, else with `Overflow` where the deposit
/// counter or the balance would pass 64 bits. Otherwise the deposit is
/// counted, the balance grows by `amount`, and the receipt, which carries the
/// commitment computed for the deposit, for the native asset, under the new
/// count, is added to `deposits` under that count.
///
/// Where `deposits` is the log of the vault's deposits, which ends at the
/// vault's deposit count, it still is afterwards, and the receipt is found in
/// it under its sequence number.
pub fn deposit_native(
    state: &mut VaultState,
    deposits: &mut Journal<DepositRecord>,
    depositor: Identity,
    amount: u64,
    now: i64,
    bump: u8,
) -> (result: Result<Deposit, VaultError>)
    ensures
        old(state).owner_is_set() ==> final(state).owner_is_set(),
        final(deposits).base() == old(deposits).base(),
        old(deposits).last_sequence() == old(state).deposit_nonce ==> final(deposits).last_sequence()
            == final(state).deposit_nonce,
        match result {
            Ok(deposit) => {
                &&& deposit_refusal(old(state).paused, old(state).deposit_nonce, old(state).sol_balance, amount)
                    is None
                &&& *final(state) == (VaultState {
                    deposit_nonce: (old(state).deposit_nonce + 1) as u64,
                    sol_balance: (old(state).sol_balance + amount) as u64,
                    ..*old(state)
                })
                &&& moves(old(state).sol_balance, Movement::In(amount), final(state).sol_balance)
                &&& final(deposits)@ == old(deposits)@.push(deposit.record)
                &&& old(deposits).last_sequence() == old(state).deposit_nonce ==> final(deposits).at(
                    deposit.record.nonce,
                ) == Some(deposit.record)
                &&& is_deposit_of(
                    deposit,
                    depositor,
                    zero_bytes(),
                    amount,
                    final(state).deposit_nonce,
                    now,
                    bump,
                )
            },
            Err(error) => {
                &&& deposit_refusal(old(state).paused, old(state).deposit_nonce, old(state).sol_balance, amount)
                    == Some(error)
                &&& *final(state) == *old(state)
                &&& final(deposits)@ == old(deposits)@
            },
        },
{
    if state.paused {
        return Err(VaultError::VaultPaused);
    }
    if amount == 0 {
        return Err(VaultError::InvalidAmount);
    }
    if state.deposit_nonce == u64::MAX {
        return Err(VaultError::Overflow);
    }
    let balance = match state.sol_balance.checked_add(amount) {
        Some(balance) => balance,
        None => {
            return Err(VaultError::Overflow);
        },
    };
    state.deposit_nonce += 1;
    state.sol_balance = balance;
    let deposit = receipt(depositor, Identity::zero(), amount, state.deposit_nonce, now, bump);
    deposits.append(deposit.record);
    Ok(deposit)
}

/// Deposits `amount` of the token of `vault` for `depositor` at time `now`.
///
/// Refused on the same grounds, in the same order, as a native deposit, the
/// balance being that of `vault`. Otherwise the deposit is counted in
/// `state`, the balance of `vault` grows by `amount`, and the receipt, which
/// carries the commitment computed for the deposit, for the token, under the
/// new count, is added to `deposits` under that count.
pub fn deposit_token(
    state: &mut VaultState,
    vault: &mut TokenVault,
    deposits: &mut Journal<DepositRecord>,
    depositor: Identity,
    amount: u64,
    now: i64,
    bump: u8,
) -> (result: Result<Deposit, VaultError>)
    ensures
        old(state).owner_is_set() ==> final(state).owner_is_set(),
        final(deposits).base() == old(deposits).base(),
        old(deposits).last_sequence() == old(state).deposit_nonce ==> final(deposits).last_sequence()
            == final(state).deposit_nonce,
        match result {
            Ok(deposit) => {
                &&& deposit_refusal(old(state).paused, old(state).deposit_nonce, old(vault).balance, amount)
                    is None
                &&& *final(state) == (VaultState {
                    deposit_nonce: (old(state).deposit_nonce + 1) as u64,
                    ..*old(state)
                })
                &&& *final(vault) == (TokenVault {
                    balance: (old(vault).balance + amount) as u64,
                    ..*old(vault)
                })
                &&& moves(old(vault).balance, Movement::In(amount), final(vault).balance)
                &&& final(deposits)@ == old(deposits)@.push(deposit.record)
                &&& old(deposits).last_sequence() == old(state).deposit_nonce ==> final(deposits).at(
                    deposit.record.nonce,
                ) == Some(deposit.record)
                &&& is_deposit_of(
                    deposit,
                    depositor,
                    old(vault).mint@,
                    amount,
                    final(state).deposit_nonce,
                    now,
                    bump,
                )
            },
            Err(error) => {
                &&& deposit_refusal(old(state).paused, old(state).deposit_nonce, old(vault).balance, amount)
                    == Some(error)
                &&& *final(state) == *old(state)
                &&& *final(vault) == *old(vault)
                &&& final(deposits)@ == old(deposits)@
            },
        },
{
    if state.paused {
        return Err(VaultError::VaultPaused);
    }
    if amount == 0 {
        return Err(VaultError::InvalidAmount);
    }
    if state.deposit_nonce == u64::MAX {
        return Err(VaultError::Overflow);
    }
    let balance = match vault.balance.checked_add(amount) {
        Some(balance) => balance,
        None => {
            return Err(VaultError::Overflow);
        },
    };
    state.deposit_nonce += 1;
    vault.balance = balance;
    let deposit = receipt(depositor, vault.mint, amount, state.deposit_nonce, now, bump);
    deposits.append(deposit.record);
    Ok(deposit)
}

/// Withdraws `amount` of native value to `recipient`, on the word of
/// `executor`, by consuming `commitment`.
///
/// Refused with `Unauthorized` unless `executor` is the owner or the
/// settlement delegate; else with `VaultPaused` while the vault is paused;
/// else with `InvalidAmount` for a zero amount; else with
/// `CommitmentAlreadyUsed` where `commitment` was consumed before; else with
/// `InsufficientBalance` where the balance is below `amount`; else with
/// `Overflow` where the withdrawal counter would pass 64 bits. A refused
/// withdrawal consumes nothing: the commitment is consumed only once every
/// check has passed, with the record of the withdrawal as the record of its
/// consumption. Then the balance shrinks by `amount` and the withdrawal is
/// counted.
///
/// The commitment is consumed before the value moves: the transfer returned
/// is what is left for the host to do. A host that cannot carry it out
/// discards the withdrawal as a whole, the consumption included.
pub fn withdraw_native(
    state: &mut VaultState,
    used: &mut CommitmentGate<UsedCommitment>,
    executor: Identity,
    commitment: [u8; 32],
    amount: u64,
    recipient: Identity,
    now: i64,
    bump: u8,
) -> (result: Result<Withdrawal, VaultError>)
    ensures
        old(state).owner_is_set() ==> final(state).owner_is_set(),
        match result {
            Ok(withdrawal) => {
                &&& withdrawal_refusal(
                    old(state).authorizes(executor@),
                    old(state).paused,
                    old(state).withdrawal_nonce,
                    old(state).sol_balance,
                    amount,
                    old(used).consumed(commitment@),
                ) is None
                &&& *final(state) == (VaultState {
                    sol_balance: (old(state).sol_balance - amount) as u64,
                    withdrawal_nonce: (old(state).withdrawal_nonce + 1) as u64,
                    ..*old(state)
                })
                &&& moves(old(state).sol_balance, Movement::Out(amount), final(state).sol_balance)
                &&& final(used)@ == old(used)@.insert(commitment@, withdrawal.record)
                &&& is_withdrawal_of(
                    withdrawal,
                    executor,
                    commitment,
                    zero_bytes(),
                    amount,
                    recipient,
                    now,
                    bump,
                )
            },
            Err(error) => {
                &&& withdrawal_refusal(
                    old(state).authorizes(executor@),
                    old(state).paused,
                    old(state).withdrawal_nonce,
                    old(state).sol_balance,
                    amount,
                    old(used).consumed(commitment@),
                ) == Some(error)
                &&& *final(state) == *old(state)
                &&& final(used)@ == old(used)@
            },
        },
{
    if !state.is_authorized(&executor) {
        return Err(VaultError::Unauthorized);
    }
    if state.paused {
        return Err(VaultError::VaultPaused);
    }
    if amount == 0 {
        return Err(VaultError::InvalidAmount);
    }
    if used.is_consumed(&commitment) {
        return Err(VaultError::CommitmentAlreadyUsed);
    }
    if state.sol_balance < amount {
        return Err(VaultError::InsufficientBalance);
    }
    if state.withdrawal_nonce == u64::MAX {
        return Err(VaultError::Overflow);
    }
    let record = UsedCommitment { commitment, used_at: now, executor, amount, recipient, bump };
    let _ = used.consume(commitment, record);
    state.sol_balance -= amount;
    state.withdrawal_nonce += 1;
    Ok(Withdrawal { record, transfer: Transfer::OutOfCustody { to: recipient, asset: Identity::zero(), amount } })
}

/// Withdraws `amount` of the token of `vault` to `recipient`, on the word of
/// `executor`, by consuming `commitment`.
///
/// Refused on the same grounds, in the same order, as a native withdrawal,
/// the balance being that of `vault`. Otherwise the commitment is consumed,
/// the balance of `vault` shrinks by `amount` and the withdrawal is counted
/// in `state`.
pub fn withdraw_token(
    state: &mut VaultState,
    vault: &mut TokenVault,
    used: &mut CommitmentGate<UsedCommitment>,
    executor: Identity,
    commitment: [u8; 32],
    amount: u64,
    recipient: Identity,
    now: i64,
    bump: u8,
) -> (result: Result<Withdrawal, VaultError>)
    ensures
        old(state).owner_is_set() ==> final(state).owner_is_set(),
        match result {
            Ok(withdrawal) => {
                &&& withdrawal_refusal(
                    old(state).authorizes(executor@),
                    old(state).paused,
                    old(state).withdrawal_nonce,
                    old(vault).balance,
                    amount,
                    old(used).consumed(commitment@),
                ) is None
                &&& *final(state) == (VaultState {
                    withdrawal_nonce: (old(state).withdrawal_nonce + 1) as u64,
                    ..*old(state)
                })
                &&& *final(vault) == (TokenVault {
                    balance: (old(vault).balance - amount) as u64,
                    ..*old(vault)
                })
                &&& moves(old(vault).balance, Movement::Out(amount), final(vault).balance)
                &&& final(used)@ == old(used)@.insert(commitment@, withdrawal.record)
                &&& is_withdrawal_of(
                    withdrawal,
                    executor,
                    commitment,
                    old(vault).mint@,
                    amount,
                    recipient,
                    now,
                    bump,
                )
            },
            Err(error) => {
                &&& withdrawal_refusal(
                    old(state).authorizes(executor@),
                    old(state).paused,
                    old(state).withdrawal_nonce,
                    old(vault).balance,
                    amount,
                    old(used).consumed(commitment@),
                ) == Some(error)
                &&& *final(state) == *old(state)
                &&& *final(vault) == *old(vault)
                &&& final(used)@ == old(used)@
            },
        },
{
    if !state.is_authorized(&executor) {
        return Err(VaultError::Unauthorized);
    }
    if state.paused {
        return Err(VaultError::VaultPaused);
    }
    if amount == 0 {
        return Err(VaultError::InvalidAmount);
    }
    if used.is_consumed(&commitment) {
        return Err(VaultError::CommitmentAlreadyUsed);
    }
    if vault.balance < amount {
        return Err(VaultError::InsufficientBalance);
    }
    if state.withdrawal_nonce == u64::MAX {
        return Err(VaultError::Overflow);
    }
    let record = UsedCommitment { commitment, used_at: now, executor, amount, recipient, bump };
    let _ = used.consume(commitment, record);
    vault.balance -= amount;
    state.withdrawal_nonce += 1;
    Ok(Withdrawal { record, transfer: Transfer::OutOfCustody { to: recipient, asset: vault.mint, amount } })
}

/// Names a new settlement delegate. Only the owner may: any other `signer`
/// is refused with `Unauthorized`.
pub fn set_settlement(state: &mut VaultState, signer: &Identity, settlement: Identity) -> (result: Result<
    (),
    VaultError,
>)
    ensures
        old(state).owner_is_set() ==> final(state).owner_is_set(),
        signer@ == old(state).authority@ ==> result is Ok && *final(state) == (VaultState {
            settlement,
            ..*old(state)
        }),
        signer@ != old(state).authority@ ==> result == Err::<(), VaultError>(VaultError::Unauthorized)
            && *final(state) == *old(state),
{
    if !signer.same(&state.authority) {
        return Err(VaultError::Unauthorized);
    }
    state.settlement = settlement;
    Ok(())
}

/// Offers the vault to `new_authority`, replacing any earlier offer. Only
/// the owner may: any other `signer` is refused with `Unauthorized`. The
/// default identity is refused with `InvalidPendingAuthority`.
pub fn transfer_authority(state: &mut VaultState, signer: &Identity, new_authority: Identity) -> (result:
    Result<(), VaultError>)
    ensures
        old(state).owner_is_set() ==> final(state).owner_is_set(),
        match offer(old(state).seat(), signer@, new_authority@) {
            Ok(offered) => result is Ok && *final(state) == (VaultState {
                pending_authority: new_authority,
                ..*old(state)
            }) && final(state).seat() == offered,
            Err(refusal) => result == Err::<(), VaultError>(handover_error(refusal)) && *final(state)
                == *old(state),
        },
{
    if !signer.same(&state.authority) {
        return Err(VaultError::Unauthorized);
    }
    if new_authority.is_zero() {
        return Err(VaultError::InvalidPendingAuthority);
    }
    state.pending_authority = new_authority;
    Ok(())
}

/// Takes the vault over. Refused with `NoPendingTransfer` where no offer
/// stands, else with `Unauthorized` unless `signer` is the party the vault
/// was offered to. Otherwise that party becomes the owner and the offer is
/// cleared.
pub fn accept_authority(state: &mut VaultState, signer: &Identity) -> (result: Result<(), VaultError>)
    ensures
        old(state).owner_is_set() ==> final(state).owner_is_set(),
        match accept(old(state).seat(), signer@) {
            Ok(taken) => result is Ok && *final(state) == (VaultState {
                authority: old(state).pending_authority,
                pending_authority: final(state).pending_authority,
                ..*old(state)
            }) && final(state).seat() == taken,
            Err(refusal) => result == Err::<(), VaultError>(handover_error(refusal)) && *final(state)
                == *old(state),
        },
{
    if state.pending_authority.is_zero() {
        return Err(VaultError::NoPendingTransfer);
    }
    if !signer.same(&state.pending_authority) {
        return Err(VaultError::Unauthorized);
    }
    state.authority = state.pending_authority;
    state.pending_authority = Identity::zero();
    Ok(())
}

/// Pauses the vault. Only the owner may: any other `signer` is refused with
/// `Unauthorized`.
pub fn pause(state: &mut VaultState, signer: &Identity) -> (result: Result<(), VaultError>)
    ensures
        old(state).owner_is_set() ==> final(state).owner_is_set(),
        signer@ == old(state).authority@ ==> result is Ok && *final(state) == (VaultState {
            paused: true,
            ..*old(state)
        }),
        signer@ != old(state).authority@ ==> result == Err::<(), VaultError>(VaultError::Unauthorized)
            && *final(state) == *old(state),
{
    if !signer.same(&state.authority) {
        return Err(VaultError::Unauthorized);
    }
    state.paused = true;
    Ok(())
}

/// Lifts the pause. Only the owner may: any other `signer` is refused with
/// `Unauthorized`.
pub fn unpause(state: &mut VaultState, signer: &Identity) -> (result: Result<(), VaultError>)
    ensures
        old(state).owner_is_set() ==> final(state).owner_is_set(),
        signer@ == old(state).authority@ ==> result is Ok && *final(state) == (VaultState {
            paused: false,
            ..*old(state)
        }),
        signer@ != old(state).authority@ ==> result == Err::<(), VaultError>(VaultError::Unauthorized)
            && *final(state) == *old(state),
{
    if !signer.same(&state.authority) {
        return Err(VaultError::Unauthorized);
    }
    state.paused = false;
    Ok(())
}

} // verus!
