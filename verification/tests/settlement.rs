use sip_core::gate::CommitmentGate;
use sip_core::identity::Identity;
use sip_core::journal::Journal;
use sip_core::merkle::hash_pair;
use sip_core::settlement::error::SipError;
use sip_core::settlement::instructions::{
    accept_authority, add_executor, cancel_authority_transfer, initialize, remove_executor, settle,
    transfer_authority, update_root,
};
use sip_core::settlement::state::{
    BatchRoot, SettlementState, UsedCommitment, MAX_EXECUTORS, MAX_PROOF_LENGTH,
};

fn id(byte: u8) -> Identity {
    Identity::new([byte; 32])
}

fn executors_of(state: &SettlementState) -> Vec<Identity> {
    let mut ids: Vec<Identity> = state.executors[..state.executor_count as usize].to_vec();
    ids.sort_by_key(|id| id.bytes);
    ids
}

#[test]
fn initialize_opens_empty_books() {
    let state = initialize(id(1), 254);
    assert_eq!(state.authority, id(1));
    assert!(state.pending_authority.is_zero());
    assert_eq!(state.current_root, [0u8; 32]);
    assert_eq!(state.batch_id, 0);
    assert_eq!(state.executor_count, 0);
    assert_eq!(state.executors, [Identity::zero(); MAX_EXECUTORS]);
    assert_eq!(state.bump, 254);
    assert!(state.is_well_formed());
    assert!(state.is_executor(&id(1)));
    assert!(!state.is_executor(&id(2)));
}

#[test]
fn rotate_then_settle_once() {
    let owner = id(0xA);
    let executor = id(0xB);
    let mut state = initialize(owner, 1);
    let mut history: Journal<BatchRoot> = Journal::new();
    let mut used = CommitmentGate::new();

    let leaf = [0x11u8; 32];
    let sibling = [0x22u8; 32];
    let root = hash_pair(&leaf, &sibling);

    assert_eq!(
        update_root(&mut state, &mut history, &executor, root, 50, 7),
        Err(SipError::Unauthorized)
    );
    assert_eq!(state.batch_id, 0);
    assert_eq!(history.len(), 0);

    assert_eq!(add_executor(&mut state, &owner, executor), Ok(()));
    let entry = update_root(&mut state, &mut history, &executor, root, 60, 7).unwrap();
    assert_eq!(
        entry,
        BatchRoot { batch_id: 1, root, created_at: 60, executor, bump: 7 }
    );
    assert_eq!(state.batch_id, 1);
    assert_eq!(state.current_root, root);
    assert_eq!(history.get(1), Some(&entry));
    assert_eq!(history.get(0), None);
    assert_eq!(history.get(2), None);

    let payer = id(0xC);
    let record = settle(&state, &mut used, payer, leaf, vec![sibling], 0, 70, 3).unwrap();
    assert_eq!(
        record,
        UsedCommitment { commitment: leaf, batch_id: 1, settled_at: 70, executor: payer, bump: 3 }
    );
    assert!(used.is_consumed(&leaf));
    assert_eq!(used.record_of(&leaf), Some(&record));
    assert_eq!(
        settle(&state, &mut used, payer, leaf, vec![sibling], 0, 71, 3),
        Err(SipError::CommitmentAlreadyUsed)
    );
    assert_eq!(
        settle(&state, &mut used, owner, leaf, vec![sibling], 0, 72, 3),
        Err(SipError::CommitmentAlreadyUsed)
    );
    assert_eq!(used.record_of(&leaf), Some(&record));
}

#[test]
fn update_root_checks_the_caller_before_the_root() {
    let owner = id(1);
    let mut state = initialize(owner, 0);
    let mut history: Journal<BatchRoot> = Journal::new();
    assert_eq!(
        update_root(&mut state, &mut history, &id(2), [0u8; 32], 0, 0),
        Err(SipError::Unauthorized)
    );
    assert_eq!(
        update_root(&mut state, &mut history, &owner, [0u8; 32], 0, 0),
        Err(SipError::InvalidRoot)
    );
    assert_eq!(state, initialize(owner, 0));
    assert_eq!(history.len(), 0);
    let mut almost_zero = [0u8; 32];
    almost_zero[31] = 1;
    assert!(update_root(&mut state, &mut history, &owner, almost_zero, 5, 9).is_ok());
    assert!(update_root(&mut state, &mut history, &owner, [4u8; 32], 6, 9).is_ok());
    assert_eq!(state.batch_id, 2);
    assert_eq!(state.current_root, [4u8; 32]);
    assert_eq!(history.len(), 2);
    assert_eq!(history.get(1).unwrap().root, almost_zero);
    assert_eq!(history.get(2).unwrap().root, [4u8; 32]);
    assert_eq!(history.get(2).unwrap().created_at, 6);
}

#[test]
fn settle_checks_in_order() {
    let owner = id(1);
    let mut state = initialize(owner, 0);
    let mut history: Journal<BatchRoot> = Journal::new();
    let mut used = CommitmentGate::new();
    let leaf = [0x11u8; 32];
    let sibling = [0x22u8; 32];
    let root = hash_pair(&leaf, &sibling);
    update_root(&mut state, &mut history, &owner, root, 0, 0).unwrap();

    assert_eq!(
        settle(&state, &mut used, owner, leaf, vec![], 0, 0, 0),
        Err(SipError::EmptyProof)
    );
    assert_eq!(
        settle(&state, &mut used, owner, leaf, vec![sibling; MAX_PROOF_LENGTH + 1], 0, 0, 0),
        Err(SipError::ProofTooLong)
    );
    assert_eq!(
        settle(&state, &mut used, owner, leaf, vec![sibling; MAX_PROOF_LENGTH], 0, 0, 0),
        Err(SipError::InvalidProof)
    );
    assert_eq!(
        settle(&state, &mut used, owner, leaf, vec![sibling], 1, 0, 0),
        Err(SipError::InvalidProof)
    );
    assert!(!used.is_consumed(&leaf));
    assert!(settle(&state, &mut used, owner, leaf, vec![sibling], 0, 0, 0).is_ok());
    // a consumed commitment with a bad proof is still a bad proof
    assert_eq!(
        settle(&state, &mut used, owner, leaf, vec![sibling], 1, 0, 0),
        Err(SipError::InvalidProof)
    );
    assert_eq!(
        settle(&state, &mut used, owner, leaf, vec![], 0, 0, 0),
        Err(SipError::EmptyProof)
    );
}

#[test]
fn a_proof_is_checked_against_the_current_root_only() {
    let owner = id(1);
    let mut state = initialize(owner, 0);
    let mut history: Journal<BatchRoot> = Journal::new();
    let mut used = CommitmentGate::new();
    let leaf = [0x11u8; 32];
    let sibling = [0x22u8; 32];
    let old_root = hash_pair(&leaf, &sibling);
    update_root(&mut state, &mut history, &owner, old_root, 0, 0).unwrap();
    update_root(&mut state, &mut history, &owner, [9u8; 32], 0, 0).unwrap();
    assert_eq!(
        settle(&state, &mut used, owner, leaf, vec![sibling], 0, 0, 0),
        Err(SipError::InvalidProof)
    );
}

#[test]
fn executors_are_a_bounded_set() {
    let owner = id(1);
    let mut state = initialize(owner, 0);
    assert_eq!(add_executor(&mut state, &id(2), id(3)), Err(SipError::Unauthorized));
    for byte in 10..20u8 {
        assert_eq!(add_executor(&mut state, &owner, id(byte)), Ok(()));
        assert!(state.is_well_formed());
    }
    assert_eq!(state.executor_count, 10);
    assert_eq!(add_executor(&mut state, &owner, id(12)), Err(SipError::ExecutorAlreadyExists));
    assert_eq!(add_executor(&mut state, &owner, id(99)), Err(SipError::MaxExecutorsReached));
    assert_eq!(state.executor_count, 10);
    assert!(state.is_executor(&id(19)));
    assert!(!state.is_executor(&id(99)));

    assert_eq!(remove_executor(&mut state, &id(12), id(12)), Err(SipError::Unauthorized));
    assert_eq!(remove_executor(&mut state, &owner, id(99)), Err(SipError::ExecutorNotFound));
    assert_eq!(remove_executor(&mut state, &owner, id(12)), Ok(()));
    assert_eq!(state.executor_count, 9);
    assert!(state.is_well_formed());
    assert!(!state.is_executor(&id(12)));
    let expected: Vec<Identity> = [10u8, 11, 13, 14, 15, 16, 17, 18, 19].iter().map(|b| id(*b)).collect();
    assert_eq!(executors_of(&state), expected);
    assert_eq!(remove_executor(&mut state, &owner, id(12)), Err(SipError::ExecutorNotFound));

    // the last one leaves without a swap
    let last = state.executors[8];
    assert_eq!(remove_executor(&mut state, &owner, last), Ok(()));
    assert_eq!(state.executor_count, 8);
    assert!(!state.is_executor(&last));
    assert_eq!(add_executor(&mut state, &owner, id(12)), Ok(()));
    assert_eq!(state.executors[8], id(12));
    assert_eq!(state.executor_count, 9);
}

#[test]
fn removing_the_only_executor_empties_the_set() {
    let owner = id(1);
    let mut state = initialize(owner, 0);
    assert_eq!(remove_executor(&mut state, &owner, id(5)), Err(SipError::ExecutorNotFound));
    add_executor(&mut state, &owner, id(5)).unwrap();
    assert_eq!(remove_executor(&mut state, &owner, id(5)), Ok(()));
    assert_eq!(state.executor_count, 0);
    assert!(!state.is_executor(&id(5)));
    assert!(state.is_well_formed());
}

#[test]
fn the_owner_is_not_an_executor_by_storage_but_is_authorized() {
    let owner = id(1);
    let mut state = initialize(owner, 0);
    assert_eq!(state.position(&owner), None);
    assert!(state.is_executor(&owner));
    add_executor(&mut state, &owner, id(4)).unwrap();
    add_executor(&mut state, &owner, id(5)).unwrap();
    assert_eq!(state.position(&id(5)), Some(1));
    assert_eq!(state.position(&id(6)), None);
}

#[test]
fn well_formedness_is_decided() {
    let mut state = initialize(id(1), 0);
    state.executor_count = 11;
    assert!(!state.is_well_formed());
    state.executor_count = 2;
    assert!(!state.is_well_formed());
    state.executors[1] = id(3);
    assert!(state.is_well_formed());
    state.executors[0] = id(3);
    assert!(!state.is_well_formed());
}

#[test]
fn two_step_transfer() {
    let owner = id(1);
    let heir = id(2);
    let mut state = initialize(owner, 0);
    assert_eq!(accept_authority(&mut state, &heir), Err(SipError::NoPendingTransfer));
    assert_eq!(transfer_authority(&mut state, &heir, heir), Err(SipError::Unauthorized));
    assert_eq!(
        transfer_authority(&mut state, &owner, Identity::zero()),
        Err(SipError::InvalidPendingAuthority)
    );
    assert_eq!(transfer_authority(&mut state, &owner, id(3)), Ok(()));
    assert_eq!(transfer_authority(&mut state, &owner, heir), Ok(()));
    assert_eq!(state.pending_authority, heir);
    assert_eq!(state.authority, owner);
    assert_eq!(accept_authority(&mut state, &id(3)), Err(SipError::Unauthorized));
    assert_eq!(accept_authority(&mut state, &owner), Err(SipError::Unauthorized));
    assert_eq!(accept_authority(&mut state, &heir), Ok(()));
    assert_eq!(state.authority, heir);
    assert!(state.pending_authority.is_zero());
    assert_eq!(accept_authority(&mut state, &heir), Err(SipError::NoPendingTransfer));
    assert_eq!(transfer_authority(&mut state, &owner, owner), Err(SipError::Unauthorized));
}

#[test]
fn cancel_clears_the_offer() {
    let owner = id(1);
    let heir = id(2);
    let mut state = initialize(owner, 0);
    assert_eq!(cancel_authority_transfer(&mut state, &owner), Ok(()));
    assert!(state.pending_authority.is_zero());
    transfer_authority(&mut state, &owner, heir).unwrap();
    assert_eq!(cancel_authority_transfer(&mut state, &heir), Err(SipError::Unauthorized));
    assert_eq!(state.pending_authority, heir);
    assert_eq!(cancel_authority_transfer(&mut state, &owner), Ok(()));
    assert!(state.pending_authority.is_zero());
    assert_eq!(accept_authority(&mut state, &heir), Err(SipError::NoPendingTransfer));
    assert_eq!(state.authority, owner);
}

#[test]
fn settlement_messages_and_sizes() {
    assert_eq!(SipError::Unauthorized.message(), "Unauthorized: caller is not an authorized executor");
    assert_eq!(SipError::InvalidProof.message(), "Invalid Merkle proof");
    assert_eq!(SipError::CommitmentAlreadyUsed.message(), "Commitment has already been used");
    assert_eq!(SipError::InvalidRoot.message(), "Invalid root: cannot be zero");
    assert_eq!(SipError::MaxExecutorsReached.message(), "Maximum executors reached");
    assert_eq!(SipError::ExecutorNotFound.message(), "Executor not found");
    assert_eq!(SipError::ExecutorAlreadyExists.message(), "Executor already exists");
    assert_eq!(SipError::ProofTooLong.message(), "Proof too long: maximum depth is 32");
    assert_eq!(SipError::EmptyProof.message(), "Proof is empty");
    assert_eq!(SipError::InvalidPendingAuthority.message(), "Invalid pending authority");
    assert_eq!(SipError::NoPendingTransfer.message(), "No pending authority transfer");
    assert_eq!(SettlementState::LEN, 434);
    assert_eq!(UsedCommitment::LEN, 89);
    assert_eq!(BatchRoot::LEN, 89);
    assert_eq!(MAX_EXECUTORS, 10);
    assert_eq!(MAX_PROOF_LENGTH, 32);
}
