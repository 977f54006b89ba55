//! The operations of the settlement ledger.
//!
//! Every operation either succeeds and changes the books as its contract
//! says, or is refused and changes nothing. The checks of an operation are
//! made in a fixed order, and the first that fails names the error.

use vstd::prelude::*;
use crate::authority::{accept, cancel, offer, HandoverRefusal};
use crate::gate::CommitmentGate;
use crate::identity::{is_zero, zero_bytes, Identity};
use crate::journal::Journal;
use crate::merkle::{merkle_root, verify_merkle_proof};
use crate::settlement::error::SipError;
use crate::settlement::state::{BatchRoot, SettlementState, UsedCommitment, MAX_EXECUTORS, MAX_PROOF_LENGTH};

verus! {

/// The ledger's error for a refused step of the handover.
pub open spec fn handover_error(refusal: HandoverRefusal) -> SipError {
    match refusal {
        HandoverRefusal::Unauthorized => SipError::Unauthorized,
        HandoverRefusal::InvalidTarget => SipError::InvalidPendingAuthority,
        HandoverRefusal::NoPendingTransfer => SipError::NoPendingTransfer,
    }
}

/// The executor set after `id` joins `executors`, or why it cannot: it is in
/// the set already, or else the set is full.
pub open spec fn executor_added(executors: Set<Seq<u8>>, id: Seq<u8>) -> Result<Set<Seq<u8>>, SipError> {
    if executors.contains(id) {
        Err(SipError::ExecutorAlreadyExists)
    } else if executors.len() >= MAX_EXECUTORS {
        Err(SipError::MaxExecutorsReached)
    } else {
        Ok(executors.insert(id))
    }
}

/// The executor set after `id` leaves `executors`, or why it cannot: it is
/// not in the set.
pub open spec fn executor_removed(executors: Set<Seq<u8>>, id: Seq<u8>) -> Result<Set<Seq<u8>>, SipError> {
    if !executors.contains(id) {
        Err(SipError::ExecutorNotFound)
    } else {
        Ok(executors.remove(id))
    }
}

/// One request to change the executor set.
pub enum ExecutorChange {
    /// The identity with these bytes is to join.
    Add(Seq<u8>),
    /// The identity with these bytes is to leave.
    Remove(Seq<u8>),
}

/// The executor set after `change` was asked of `executors`: changed where
/// the request is accepted, the same where it is refused.
pub open spec fn after_change(executors: Set<Seq<u8>>, change: ExecutorChange) -> Set<Seq<u8>> {
    let outcome = match change {
        ExecutorChange::Add(id) => executor_added(executors, id),
        ExecutorChange::Remove(id) => executor_removed(executors, id),
    };
    match outcome {
        Ok(changed) => changed,
        Err(_) => executors,
    }
}

/// The executor set after each of `changes` was asked of `executors`, in
/// order.
pub open spec fn after_changes(executors: Set<Seq<u8>>, changes: Seq<ExecutorChange>) -> Set<Seq<u8>>
    decreases changes.len(),
{
    if changes.len() == 0 {
        executors
    } else {
        after_change(after_changes(executors, changes.drop_last()), changes.last())
    }
}

/// The executor set stays bounded: whatever is asked of a set of at most
/// `MAX_EXECUTORS` executors, in whatever order, it never has more.
pub proof fn executors_stay_bounded(executors: Set<Seq<u8>>, changes: Seq<ExecutorChange>)
    requires
        executors.finite(),
        executors.len() <= MAX_EXECUTORS,
    ensures
        after_changes(executors, changes).finite(),
        after_changes(executors, changes).len() <= MAX_EXECUTORS,
    decreases changes.len(),
{
    if changes.len() > 0 {
        executors_stay_bounded(executors, changes.drop_last());
    }
}

/// Why a rotation to a root with the bytes `root` is refused; `None` where
/// it is accepted. `authorized` says whether the caller may rotate.
pub open spec fn rotation_refusal(authorized: bool, root: Seq<u8>) -> Option<SipError> {
    if !authorized {
        Some(SipError::Unauthorized)
    } else if root == zero_bytes() {
        Some(SipError::InvalidRoot)
    } else {
        None
    }
}

/// Why a settlement is refused; `None` where it is accepted. `siblings` is
/// the length of the proof, `proved` says whether the proof leads to the
/// current root, `consumed` whether the commitment was settled before.
pub open spec fn settlement_refusal(siblings: nat, proved: bool, consumed: bool) -> Option<SipError> {
    if siblings == 0 {
        Some(SipError::EmptyProof)
    } else if siblings > MAX_PROOF_LENGTH {
        Some(SipError::ProofTooLong)
    } else if !proved {
        Some(SipError::InvalidProof)
    } else if consumed {
        Some(SipError::CommitmentAlreadyUsed)
    } else {
        None
    }
}

/// Root validity: a rotation to the zero root is refused, whoever asks and
/// whatever the books hold; where the caller is authorized, the error is
/// `InvalidRoot`.
pub proof fn a_zero_root_is_refused(authorized: bool)
    ensures
        rotation_refusal(authorized, zero_bytes()) is Some,
        authorized ==> rotation_refusal(authorized, zero_bytes()) == Some(SipError::InvalidRoot),
{
}

/// Authorization gating: a rotation asked by a caller who is neither the
/// owner nor an executor is refused with `Unauthorized`, whatever the root.
pub proof fn an_unauthorized_rotation_is_refused(state: SettlementState, caller: Seq<u8>, root: Seq<u8>)
    requires
        caller != state.authority@,
        !state.executor_set().contains(caller),
    ensures
        rotation_refusal(state.authorizes(caller), root) == Some(SipError::Unauthorized),
{
}

/// Proof bounds: a proof without siblings, or with more than
/// `MAX_PROOF_LENGTH`, is refused for its length alone, whether or not it
/// would lead to the root and whether or not the commitment was settled.
pub proof fn a_proof_out_of_bounds_is_refused(siblings: nat, proved: bool, consumed: bool)
    ensures
        siblings == 0 ==> settlement_refusal(siblings, proved, consumed) == Some(SipError::EmptyProof),
        siblings > MAX_PROOF_LENGTH ==> settlement_refusal(siblings, proved, consumed) == Some(
            SipError::ProofTooLong,
        ),
{
}

/// Replay protection: a commitment that was settled before is never settled
/// again, and where nothing else is wrong the error is
/// `CommitmentAlreadyUsed`.
pub proof fn a_settled_commitment_is_refused(siblings: nat, proved: bool)
    ensures
        settlement_refusal(siblings, proved, true) is Some,
        0 < siblings <= MAX_PROOF_LENGTH && proved ==> settlement_refusal(siblings, proved, true) == Some(
            SipError::CommitmentAlreadyUsed,
        ),
{
}

/// Opens the books of a ledger owned by `authority`, who is somebody: no
/// root yet, no batch, no executor, no offer.
pub fn initialize(authority: Identity, bump: u8) -> (state: SettlementState)
    requires
        authority@ != zero_bytes(),
    ensures
        state.owner_is_set(),
        state.wf(),
        state == (SettlementState {
            authority,
            pending_authority: state.pending_authority,
            current_root: state.current_root,
            batch_id: 0,
            executor_count: 0,
            executors: state.executors,
            bump,
        }),
        state.pending_authority@ == zero_bytes(),
        state.current_root@ == zero_bytes(),
        state.executor_set() == Set::<Seq<u8>>::empty(),
        state.is_tidy(),
{
    let nobody = Identity::zero();
    let state = SettlementState {
        authority,
        pending_authority: nobody,
        current_root: [0u8; 32],
        batch_id: 0,
        executor_count: 0,
        executors: [nobody; MAX_EXECUTORS],
        bump,
    };
    assert(state.current_root@ =~= zero_bytes());
    assert(state.executor_set() =~= Set::<Seq<u8>>::empty());
    state
}

/// Rotates the root: `new_root` becomes the current root, as the root of
/// the next batch, and the rotation is recorded in `history` under the
/// number of that batch.
///
/// Refused with `Unauthorized` unless `executor` is the owner or an
/// executor, else with `InvalidRoot` where `new_root` is all zero.
///
/// Where `history` is the log of the ledger's rotations, which ends at the
/// ledger's batch number, it still is afterwards, and the record is found in
/// it under the number of its batch.
pub fn update_root(
    state: &mut SettlementState,
    history: &mut Journal<BatchRoot>,
    executor: &Identity,
    new_root: [u8; 32],
    now: i64,
    bump: u8,
) -> (result: Result<BatchRoot, SipError>)
    requires
        old(state).wf(),
        old(state).batch_id < u64::MAX,
    ensures
        old(state).owner_is_set() ==> final(state).owner_is_set(),
        final(state).wf(),
        final(history).base() == old(history).base(),
        old(history).last_sequence() == old(state).batch_id ==> final(history).last_sequence()
            == final(state).batch_id,
        match result {
            Ok(entry) => {
                &&& rotation_refusal(old(state).authorizes(executor@), new_root@) is None
                &&& *final(state) == (SettlementState {
                    batch_id: (old(state).batch_id + 1) as u64,
                    current_root: new_root,
                    ..*old(state)
                })
                &&& entry == (BatchRoot {
                    batch_id: final(state).batch_id,
                    root: new_root,
                    created_at: now,
                    executor: *executor,
                    bump,
                })
                &&& final(history)@ == old(history)@.push(entry)
                &&& old(history).last_sequence() == old(state).batch_id ==> final(history).at(entry.batch_id)
                    == Some(entry)
            },
            Err(error) => {
                &&& rotation_refusal(old(state).authorizes(executor@), new_root@) == Some(error)
                &&& *final(state) == *old(state)
                &&& final(history)@ == old(history)@
            },
        },
{
    if !state.is_executor(executor) {
        return Err(SipError::Unauthorized);
    }
    if is_zero(&new_root) {
        return Err(SipError::InvalidRoot);
    }
    state.batch_id += 1;
    state.current_root = new_root;
    let entry = BatchRoot { batch_id: state.batch_id, root: new_root, created_at: now, executor: *executor, bump };
    history.append(entry);
    Ok(entry)
}

/// Settles `commitment`: checks that `proof` leads from it, at position
/// `leaf_index`, to the current root, and consumes it.
///
/// Refused with `EmptyProof` for a proof without siblings, else with
/// `ProofTooLong` for one with more than `MAX_PROOF_LENGTH`, both before the
/// proof is looked at; else with `InvalidProof` where the proof does not lead
/// to the current root; else with `CommitmentAlreadyUsed` where the
/// commitment was settled before. Anyone may settle: `payer` is recorded, not
/// checked. A refused settlement consumes nothing. Otherwise the commitment
/// is consumed, with the record of the settlement as the record of its
/// consumption.
pub fn settle(
    state: &SettlementState,
    used: &mut CommitmentGate<UsedCommitment>,
    payer: Identity,
    commitment: [u8; 32],
    proof: Vec<[u8; 32]>,
    leaf_index: u64,
    now: i64,
    bump: u8,
) -> (result: Result<UsedCommitment, SipError>)
    ensures
        match result {
            Ok(record) => {
                &&& settlement_refusal(
                    proof@.len(),
                    merkle_root(commitment@, proof@, leaf_index as nat) == state.current_root@,
                    old(used).consumed(commitment@),
                ) is None
                &&& record == (UsedCommitment {
                    commitment,
                    batch_id: state.batch_id,
                    settled_at: now,
                    executor: payer,
                    bump,
                })
                &&& final(used)@ == old(used)@.insert(commitment@, record)
            },
            Err(error) => {
                &&& settlement_refusal(
                    proof@.len(),
                    merkle_root(commitment@, proof@, leaf_index as nat) == state.current_root@,
                    old(used).consumed(commitment@),
                ) == Some(error)
                &&& final(used)@ == old(used)@
            },
        },
{
    if proof.len() == 0 {
        return Err(SipError::EmptyProof);
    }
    if proof.len() > MAX_PROOF_LENGTH {
        return Err(SipError::ProofTooLong);
    }
    if !verify_merkle_proof(&commitment, proof.as_slice(), leaf_index, &state.current_root) {
        return Err(SipError::InvalidProof);
    }
    let record = UsedCommitment { commitment, batch_id: state.batch_id, settled_at: now, executor: payer, bump };
    if used.consume(commitment, record).is_err() {
        return Err(SipError::CommitmentAlreadyUsed);
    }
    Ok(record)
}

/// Makes `executor` an executor. Only the owner may: any other `signer` is
/// refused with `Unauthorized`. Refused with `ExecutorAlreadyExists` where
/// `executor` is one already, else with `MaxExecutorsReached` where there are
/// `MAX_EXECUTORS` of them. Otherwise `executor` is stored after the others.
pub fn add_executor(state: &mut SettlementState, signer: &Identity, executor: Identity) -> (result: Result<
    (),
    SipError,
>)
    requires
        old(state).wf(),
    ensures
        old(state).owner_is_set() ==> final(state).owner_is_set(),
        final(state).wf(),
        old(state).is_tidy() ==> final(state).is_tidy(),
        signer@ != old(state).authority@ ==> result == Err::<(), SipError>(SipError::Unauthorized)
            && *final(state) == *old(state),
        signer@ == old(state).authority@ ==> match executor_added(old(state).executor_set(), executor@) {
            Ok(executors) => {
                &&& result is Ok
                &&& final(state).executor_set() == executors
                &&& final(state).executors@ == old(state).executors@.update(
                    old(state).executor_count as int,
                    executor,
                )
                &&& *final(state) == (SettlementState {
                    executor_count: (old(state).executor_count + 1) as u8,
                    executors: final(state).executors,
                    ..*old(state)
                })
            },
            Err(error) => result == Err::<(), SipError>(error) && *final(state) == *old(state),
        },
{
    if !signer.same(&state.authority) {
        return Err(SipError::Unauthorized);
    }
    proof {
        state.executor_count_is_set_size();
    }
    if state.position(&executor).is_some() {
        return Err(SipError::ExecutorAlreadyExists);
    }
    if state.executor_count as usize >= MAX_EXECUTORS {
        return Err(SipError::MaxExecutorsReached);
    }
    let at = state.executor_count as usize;
    state.executors[at] = executor;
    state.executor_count += 1;
    proof {
        let before = old(state).executor_ids();
        assert(state.executor_ids() =~= before.push(executor@));
        before.lemma_push_to_set_commute(executor@);
    }
    Ok(())
}

/// Takes `executor` out of the executors. Only the owner may: any other
/// `signer` is refused with `Unauthorized`. Refused with `ExecutorNotFound`
/// where `executor` is not one. Otherwise the executor stored last takes its
/// place, so the order of those that remain is not kept, and the place of
/// the last is cleared.
pub fn remove_executor(state: &mut SettlementState, signer: &Identity, executor: Identity) -> (result:
    Result<(), SipError>)
    requires
        old(state).wf(),
    ensures
        old(state).owner_is_set() ==> final(state).owner_is_set(),
        final(state).wf(),
        old(state).is_tidy() ==> final(state).is_tidy(),
        signer@ != old(state).authority@ ==> result == Err::<(), SipError>(SipError::Unauthorized)
            && *final(state) == *old(state),
        signer@ == old(state).authority@ ==> match executor_removed(old(state).executor_set(), executor@) {
            Ok(executors) => {
                &&& result is Ok
                &&& final(state).executor_set() == executors
                &&& *final(state) == (SettlementState {
                    executor_count: (old(state).executor_count - 1) as u8,
                    executors: final(state).executors,
                    ..*old(state)
                })
            },
            Err(error) => result == Err::<(), SipError>(error) && *final(state) == *old(state),
        },
{
    if !signer.same(&state.authority) {
        return Err(SipError::Unauthorized);
    }
    let at = match state.position(&executor) {
        Some(at) => at,
        None => {
            return Err(SipError::ExecutorNotFound);
        },
    };
    let last = state.executor_count as usize - 1;
    if at != last {
        state.executors[at] = state.executors[last];
    }
    state.executors[last] = Identity::zero();
    state.executor_count -= 1;
    proof {
        let before = old(state).executor_ids();
        let after = state.executor_ids();
        assert forall|i: int| 0 <= i < after.len() implies after[i] == (if i == at {
            before[last as int]
        } else {
            before[i]
        }) by {}
        assert forall|i: int, j: int| 0 <= i < after.len() && 0 <= j < after.len() && i != j implies after[i]
            != after[j] by {
            let from_i = if i == at { last as int } else { i };
            let from_j = if j == at { last as int } else { j };
            assert(after[i] == before[from_i]);
            assert(after[j] == before[from_j]);
        }
        assert forall|id: Seq<u8>| after.to_set().contains(id) == before.to_set().remove(executor@).contains(
            id,
        ) by {
            if after.contains(id) {
                let i = choose|i: int| 0 <= i < after.len() && after[i] == id;
                let from = if i == at { last as int } else { i };
                assert(before[from] == id);
                assert(before.contains(id));
                assert(from != at);
            }
            if before.contains(id) && id != executor@ {
                let i = choose|i: int| 0 <= i < before.len() && before[i] == id;
                let to = if i == last { at as int } else { i };
                assert(after[to] == id);
            }
        }
        assert(after.to_set() =~= before.to_set().remove(executor@));
    }
    Ok(())
}

/// Offers the ledger to `new_authority`, replacing any earlier offer. Only
/// the owner may: any other `signer` is refused with `Unauthorized`. The
/// default identity is refused with `InvalidPendingAuthority`.
pub fn transfer_authority(state: &mut SettlementState, signer: &Identity, new_authority: Identity) -> (result:
    Result<(), SipError>)
    ensures
        old(state).owner_is_set() ==> final(state).owner_is_set(),
        old(state).wf() ==> final(state).wf(),
        match offer(old(state).seat(), signer@, new_authority@) {
            Ok(offered) => result is Ok && *final(state) == (SettlementState {
                pending_authority: new_authority,
                ..*old(state)
            }) && final(state).seat() == offered,
            Err(refusal) => result == Err::<(), SipError>(handover_error(refusal)) && *final(state)
                == *old(state),
        },
{
    if !signer.same(&state.authority) {
        return Err(SipError::Unauthorized);
    }
    if new_authority.is_zero() {
        return Err(SipError::InvalidPendingAuthority);
    }
    state.pending_authority = new_authority;
    Ok(())
}

/// Takes the ledger over. Refused with `NoPendingTransfer` where no offer
/// stands, else with `Unauthorized` unless `signer` is the party the ledger
/// was offered to. Otherwise that party becomes the owner and the offer is
/// cleared.
pub fn accept_authority(state: &mut SettlementState, signer: &Identity) -> (result: Result<(), SipError>)
    ensures
        old(state).owner_is_set() ==> final(state).owner_is_set(),
        old(state).wf() ==> final(state).wf(),
        match accept(old(state).seat(), signer@) {
            Ok(taken) => result is Ok && *final(state) == (SettlementState {
                authority: old(state).pending_authority,
                pending_authority: final(state).pending_authority,
                ..*old(state)
            }) && final(state).seat() == taken,
            Err(refusal) => result == Err::<(), SipError>(handover_error(refusal)) && *final(state)
                == *old(state),
        },
{
    if state.pending_authority.is_zero() {
        return Err(SipError::NoPendingTransfer);
    }
    if !signer.same(&state.pending_authority) {
        return Err(SipError::Unauthorized);
    }
    state.authority = state.pending_authority;
    state.pending_authority = Identity::zero();
    Ok(())
}

/// Withdraws the offer of the ledger, if there is one. Only the owner may:
/// any other `signer` is refused with `Unauthorized`.
pub fn cancel_authority_transfer(state: &mut SettlementState, signer: &Identity) -> (result: Result<
    (),
    SipError,
>)
    ensures
        old(state).owner_is_set() ==> final(state).owner_is_set(),
        old(state).wf() ==> final(state).wf(),
        match cancel(old(state).seat(), signer@) {
            Ok(cleared) => result is Ok && *final(state) == (SettlementState {
                pending_authority: final(state).pending_authority,
                ..*old(state)
            }) && final(state).seat() == cleared,
            Err(refusal) => result == Err::<(), SipError>(handover_error(refusal)) && *final(state)
                == *old(state),
        },
{
    if !signer.same(&state.authority) {
        return Err(SipError::Unauthorized);
    }
    state.pending_authority = Identity::zero();
    Ok(())
}

} // verus!
