//! Invariants of the settlement ledger in the form a fuzzer checks them:
//! predicates on generated requests that hold exactly of the requests the
//! ledger must accept.

use vstd::prelude::*;
use crate::authority::{offer, Seat};
use crate::identity::{bytes_eq, is_zero, zero_bytes};
use crate::settlement::error::SipError;
use crate::settlement::instructions::{executor_added, executor_removed, rotation_refusal, settlement_refusal};
use crate::settlement::state::{MAX_EXECUTORS, MAX_PROOF_LENGTH};

verus! {

/// A generated request to rotate the root.
#[derive(Clone, Debug)]
pub struct FuzzUpdateRoot {
    pub new_root: [u8; 32],
    pub is_authorized: bool,
}

/// A generated request to settle a commitment.
#[derive(Clone, Debug)]
pub struct FuzzSettle {
    pub commitment: [u8; 32],
    pub proof_len: u8,
    pub leaf_index: u64,
    pub proof_data: Vec<[u8; 32]>,
}

/// A generated request to add or remove an executor.
#[derive(Clone, Debug)]
pub struct FuzzExecutorManagement {
    pub executor_bytes: [u8; 32],
    pub is_add: bool,
    pub executor_count: u8,
}

/// A generated request to offer the ledger to a new owner.
#[derive(Clone, Debug)]
pub struct FuzzAuthorityTransfer {
    pub new_authority_bytes: [u8; 32],
    pub is_zero: bool,
}

/// A generated request of any kind.
#[derive(Clone, Debug)]
pub enum FuzzInstruction {
    UpdateRoot(FuzzUpdateRoot),
    Settle(FuzzSettle),
    AddExecutor(FuzzExecutorManagement),
    RemoveExecutor(FuzzExecutorManagement),
    TransferAuthority(FuzzAuthorityTransfer),
    AcceptAuthority,
    CancelAuthorityTransfer,
}

/// Whether `commitment` is among `used`.
pub open spec fn is_tracked(used: Seq<[u8; 32]>, commitment: Seq<u8>) -> bool {
    exists|i: int| 0 <= i < used.len() && (#[trigger] used[i])@ == commitment
}

/// What is wrong with a request to rotate the root, if anything: a zero
/// root comes before a missing authorization.
pub open spec fn update_root_finding(data: FuzzUpdateRoot) -> Option<Seq<char>> {
    if data.new_root@ == zero_bytes() {
        Some("VULNERABILITY: Zero root accepted - InvalidRoot check missing"@)
    } else if !data.is_authorized {
        Some("VULNERABILITY: Unauthorized root update - access control bypass"@)
    } else {
        None
    }
}

/// What is wrong with a request to settle, if anything: an empty proof
/// comes before one that is too long.
pub open spec fn settle_finding(data: FuzzSettle) -> Option<Seq<char>> {
    if data.proof_len == 0 || data.proof_data@.len() == 0 {
        Some("VULNERABILITY: Empty proof accepted - EmptyProof check missing"@)
    } else if data.proof_len > MAX_PROOF_LENGTH || data.proof_data@.len() > MAX_PROOF_LENGTH {
        Some("VULNERABILITY: Oversized proof accepted - ProofTooLong check missing"@)
    } else {
        None
    }
}

/// What is wrong with a request to add or remove an executor, if anything.
pub open spec fn executor_management_finding(data: FuzzExecutorManagement) -> Option<Seq<char>> {
    if data.is_add && data.executor_count >= MAX_EXECUTORS {
        Some("VULNERABILITY: Executor overflow - MaxExecutorsReached check missing"@)
    } else if !data.is_add && data.executor_count == 0 {
        Some("VULNERABILITY: Remove from empty - ExecutorNotFound check missing"@)
    } else {
        None
    }
}

/// What is wrong with a request to offer the ledger, if anything.
pub open spec fn authority_transfer_finding(data: FuzzAuthorityTransfer) -> Option<Seq<char>> {
    if data.is_zero || data.new_authority_bytes@ == zero_bytes() {
        Some("VULNERABILITY: Zero authority accepted - InvalidPendingAuthority check missing"@)
    } else {
        None
    }
}

/// Whether a finding is what a check returned.
pub open spec fn reports(result: Result<(), &'static str>, finding: Option<Seq<char>>) -> bool {
    match result {
        Ok(_) => finding is None,
        Err(text) => finding == Some(text@),
    }
}

/// A request to rotate the root passes its check exactly when the ledger
/// accepts the rotation.
pub proof fn update_root_check_agrees(data: FuzzUpdateRoot)
    ensures
        update_root_finding(data) is None <==> rotation_refusal(data.is_authorized, data.new_root@) is None,
{
}

/// A request to settle whose claimed proof length is the actual one fails
/// its check exactly when the ledger refuses the settlement for the length
/// of the proof.
pub proof fn settle_check_agrees(data: FuzzSettle, proved: bool, consumed: bool)
    requires
        data.proof_len == data.proof_data@.len(),
    ensures
        settle_finding(data) is Some <==> {
            let refusal = settlement_refusal(data.proof_data@.len(), proved, consumed);
            refusal == Some(SipError::EmptyProof) || refusal == Some(SipError::ProofTooLong)
        },
{
}

/// A request to add or remove an executor that fails its check is one that
/// the ledger refuses, whatever executors it has, as long as they are as
/// many as the request says.
pub proof fn executor_management_check_agrees(data: FuzzExecutorManagement, executors: Set<Seq<u8>>)
    requires
        executors.finite(),
        executors.len() == data.executor_count,
        executor_management_finding(data) is Some,
    ensures
        data.is_add ==> executor_added(executors, data.executor_bytes@) is Err,
        !data.is_add ==> executor_removed(executors, data.executor_bytes@) == Err::<Set<Seq<u8>>, SipError>(
            SipError::ExecutorNotFound,
        ),
{
}

/// A request to offer the ledger, flagged as zero exactly when its bytes
/// are, passes its check exactly when the ledger accepts the offer from the
/// owner.
pub proof fn authority_transfer_check_agrees(data: FuzzAuthorityTransfer, seat: Seat)
    requires
        data.is_zero == (data.new_authority_bytes@ == zero_bytes()),
    ensures
        authority_transfer_finding(data) is None <==> offer(seat, seat.owner, data.new_authority_bytes@)
            is Ok,
{
}

/// A zero root must be rejected: holds of a request exactly when its root
/// is not all zero.
pub fn invariant_zero_root_rejected(data: &FuzzUpdateRoot) -> (holds: bool)
    ensures
        holds == (data.new_root@ != zero_bytes()),
{
    !is_zero(&data.new_root)
}

/// An unauthorized caller must be rejected: holds exactly of authorized
/// callers.
pub fn invariant_authorization_required(is_authorized: bool) -> (holds: bool)
    ensures
        holds == is_authorized,
{
    is_authorized
}

/// An empty proof must be rejected: holds exactly when neither the claimed
/// nor the actual length of the proof is zero.
pub fn invariant_empty_proof_rejected(proof_len: u8, proof_data_len: usize) -> (holds: bool)
    ensures
        holds == (proof_len != 0 && proof_data_len != 0),
{
    !(proof_len == 0 || proof_data_len == 0)
}

/// A proof deeper than the deepest tree must be rejected: holds exactly
/// when neither the claimed nor the actual length of the proof is above
/// `MAX_PROOF_LENGTH`.
pub fn invariant_proof_length_bounded(proof_len: u8, proof_data_len: usize) -> (holds: bool)
    ensures
        holds == (proof_len <= MAX_PROOF_LENGTH && proof_data_len <= MAX_PROOF_LENGTH),
{
    !(proof_len as usize > MAX_PROOF_LENGTH || proof_data_len > MAX_PROOF_LENGTH)
}

/// The executor set must not grow past its bound: fails exactly of an
/// addition to `MAX_EXECUTORS` executors or more.
pub fn invariant_executor_count_bounded(count: u8, is_add: bool) -> (holds: bool)
    ensures
        holds == !(is_add && count >= MAX_EXECUTORS),
{
    !(count as usize >= MAX_EXECUTORS && is_add)
}

/// Nothing can be removed from an empty executor set: fails exactly of a
/// removal from no executors.
pub fn invariant_remove_requires_executors(count: u8, is_add: bool) -> (holds: bool)
    ensures
        holds == !(!is_add && count == 0),
{
    !(!is_add && count == 0)
}

/// The default identity cannot be offered the ledger: holds exactly of
/// bytes that are not all zero.
pub fn invariant_valid_pending_authority(bytes: &[u8; 32]) -> (holds: bool)
    ensures
        holds == (bytes@ != zero_bytes()),
{
    !is_zero(bytes)
}

/// A commitment must not be settled twice: holds exactly when `commitment`
/// is not among `used_commitments`.
pub fn invariant_no_commitment_replay(commitment: &[u8; 32], used_commitments: &[[u8; 32]]) -> (holds: bool)
    ensures
        holds == !is_tracked(used_commitments@, commitment@),
{
    let mut i: usize = 0;
    while i < used_commitments.len()
        invariant
            i <= used_commitments@.len(),
            forall|k: int| 0 <= k < i ==> (#[trigger] used_commitments@[k])@ != commitment@,
        decreases used_commitments@.len() - i,
    {
        if bytes_eq(&used_commitments[i], commitment) {
            return false;
        }
        i += 1;
    }
    true
}

/// Checks a request to rotate the root against its invariants and names the
/// first that fails.
pub fn check_update_root(data: &FuzzUpdateRoot) -> (result: Result<(), &'static str>)
    ensures
        reports(result, update_root_finding(*data)),
{
    if !invariant_zero_root_rejected(data) {
        return Err("VULNERABILITY: Zero root accepted - InvalidRoot check missing");
    }
    if !invariant_authorization_required(data.is_authorized) {
        return Err("VULNERABILITY: Unauthorized root update - access control bypass");
    }
    Ok(())
}

/// Checks a request to settle against its invariants and names the first
/// that fails.
pub fn check_settle(data: &FuzzSettle) -> (result: Result<(), &'static str>)
    ensures
        reports(result, settle_finding(*data)),
{
    if !invariant_empty_proof_rejected(data.proof_len, data.proof_data.len()) {
        return Err("VULNERABILITY: Empty proof accepted - EmptyProof check missing");
    }
    if !invariant_proof_length_bounded(data.proof_len, data.proof_data.len()) {
        return Err("VULNERABILITY: Oversized proof accepted - ProofTooLong check missing");
    }
    Ok(())
}

/// Checks a request to add or remove an executor against its invariants and
/// names the first that fails.
pub fn check_executor_management(data: &FuzzExecutorManagement) -> (result: Result<(), &'static str>)
    ensures
        reports(result, executor_management_finding(*data)),
{
    if !invariant_executor_count_bounded(data.executor_count, data.is_add) {
        return Err("VULNERABILITY: Executor overflow - MaxExecutorsReached check missing");
    }
    if !invariant_remove_requires_executors(data.executor_count, data.is_add) {
        return Err("VULNERABILITY: Remove from empty - ExecutorNotFound check missing");
    }
    Ok(())
}

/// Checks a request to offer the ledger against its invariant.
pub fn check_authority_transfer(data: &FuzzAuthorityTransfer) -> (result: Result<(), &'static str>)
    ensures
        reports(result, authority_transfer_finding(*data)),
{
    if data.is_zero || !invariant_valid_pending_authority(&data.new_authority_bytes) {
        return Err("VULNERABILITY: Zero authority accepted - InvalidPendingAuthority check missing");
    }
    Ok(())
}

/// What a fuzzing session remembers between requests: the commitments it
/// has seen settled, and how many executors there should be.
#[derive(Debug)]
pub struct FuzzTracker {
    pub used_commitments: Vec<[u8; 32]>,
    pub executor_count: u8,
}

/// What one request showed.
#[derive(Debug, PartialEq, Eq)]
pub struct FuzzReport {
    /// The result of checking the request against its invariants.
    pub outcome: Result<(), &'static str>,
    /// Whether the request settles a commitment that was seen before.
    pub replay: bool,
}

/// The request to add or remove an executor that the session checks for
/// `data`: the direction and the executor count are the session's, not the
/// generated ones.
pub open spec fn as_tracked(data: FuzzExecutorManagement, is_add: bool, executor_count: u8) -> FuzzExecutorManagement {
    FuzzExecutorManagement { executor_bytes: data.executor_bytes, is_add, executor_count }
}

impl FuzzTracker {
    /// A session that has seen nothing.
    pub fn new() -> (tracker: FuzzTracker)
        ensures
            tracker.used_commitments@ == Seq::<[u8; 32]>::empty(),
            tracker.executor_count == 0,
    {
        FuzzTracker { used_commitments: Vec::new(), executor_count: 0 }
    }

    /// Checks one request against its invariants and keeps track of what it
    /// does: a settlement adds its commitment to those seen, unless it was
    /// seen before, in which case it is reported as a replay; an addition
    /// or a removal of an executor moves the executor count by one within
    /// zero and `MAX_EXECUTORS`.
    pub fn process(&mut self, instruction: &FuzzInstruction) -> (report: FuzzReport)
        ensures
            match *instruction {
                FuzzInstruction::UpdateRoot(data) => {
                    &&& reports(report.outcome, update_root_finding(data))
                    &&& !report.replay
                    &&& *final(self) == *old(self)
                },
                FuzzInstruction::Settle(data) => {
                    &&& reports(report.outcome, settle_finding(data))
                    &&& report.replay == is_tracked(old(self).used_commitments@, data.commitment@)
                    &&& final(self).used_commitments@ == if report.replay {
                        old(self).used_commitments@
                    } else {
                        old(self).used_commitments@.push(data.commitment)
                    }
                    &&& final(self).executor_count == old(self).executor_count
                },
                FuzzInstruction::AddExecutor(data) => {
                    &&& reports(
                        report.outcome,
                        executor_management_finding(as_tracked(data, true, old(self).executor_count)),
                    )
                    &&& !report.replay
                    &&& final(self).used_commitments@ == old(self).used_commitments@
                    &&& final(self).executor_count == if old(self).executor_count < MAX_EXECUTORS {
                        old(self).executor_count + 1
                    } else {
                        old(self).executor_count as int
                    }
                },
                FuzzInstruction::RemoveExecutor(data) => {
                    &&& reports(
                        report.outcome,
                        executor_management_finding(as_tracked(data, false, old(self).executor_count)),
                    )
                    &&& !report.replay
                    &&& final(self).used_commitments@ == old(self).used_commitments@
                    &&& final(self).executor_count == if old(self).executor_count > 0 {
                        old(self).executor_count - 1
                    } else {
                        0
                    }
                },
                FuzzInstruction::TransferAuthority(data) => {
                    &&& reports(report.outcome, authority_transfer_finding(data))
                    &&& !report.replay
                    &&& *final(self) == *old(self)
                },
                _ => report.outcome is Ok && !report.replay && *final(self) == *old(self),
            },
    {
        match instruction {
            FuzzInstruction::UpdateRoot(data) => FuzzReport { outcome: check_update_root(data), replay: false },
            FuzzInstruction::Settle(data) => {
                let outcome = check_settle(data);
                let replay = !invariant_no_commitment_replay(&data.commitment, self.used_commitments.as_slice());
                if !replay {
                    self.used_commitments.push(data.commitment);
                }
                FuzzReport { outcome, replay }
            },
            FuzzInstruction::AddExecutor(data) => {
                let request = FuzzExecutorManagement {
                    executor_bytes: data.executor_bytes,
                    is_add: true,
                    executor_count: self.executor_count,
                };
                let outcome = check_executor_management(&request);
                if self.executor_count < 10 {
                    self.executor_count += 1;
                }
                FuzzReport { outcome, replay: false }
            },
            FuzzInstruction::RemoveExecutor(data) => {
                let request = FuzzExecutorManagement {
                    executor_bytes: data.executor_bytes,
                    is_add: false,
                    executor_count: self.executor_count,
                };
                let outcome = check_executor_management(&request);
                if self.executor_count > 0 {
                    self.executor_count -= 1;
                }
                FuzzReport { outcome, replay: false }
            },
            FuzzInstruction::TransferAuthority(data) => FuzzReport {
                outcome: check_authority_transfer(data),
                replay: false,
            },
            FuzzInstruction::AcceptAuthority => FuzzReport { outcome: Ok(()), replay: false },
            FuzzInstruction::CancelAuthorityTransfer => FuzzReport { outcome: Ok(()), replay: false },
        }
    }
}

} // verus!
