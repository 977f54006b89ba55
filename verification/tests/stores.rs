use sip_core::gate::{AlreadyUsed, CommitmentGate};
use sip_core::identity::Identity;
use sip_core::journal::Journal;
use sip_core::settlement::instructions::{initialize, update_root};
use sip_core::settlement::state::BatchRoot;

#[test]
fn a_token_passes_once() {
    let mut gate: CommitmentGate<u32> = CommitmentGate::new();
    let token = [1u8; 32];
    assert!(!gate.is_consumed(&token));
    assert_eq!(gate.record_of(&token), None);
    assert_eq!(gate.consume(token, 10), Ok(()));
    assert!(gate.is_consumed(&token));
    assert_eq!(gate.record_of(&token), Some(&10));
    assert_eq!(gate.consume(token, 20), Err(AlreadyUsed));
    assert_eq!(gate.consume(token, 30), Err(AlreadyUsed));
    assert!(gate.is_consumed(&token));
    // the first record stays
    assert_eq!(gate.record_of(&token), Some(&10));
}

#[test]
fn tokens_do_not_disturb_each_other() {
    let mut gate: CommitmentGate<&'static str> = CommitmentGate::new();
    let mut near = [1u8; 32];
    near[31] = 2;
    assert_eq!(gate.consume([1u8; 32], "ones"), Ok(()));
    assert!(!gate.is_consumed(&near));
    assert_eq!(gate.consume(near, "near"), Ok(()));
    assert_eq!(gate.consume([0u8; 32], "zeros"), Ok(()));
    assert_eq!(gate.consume([1u8; 32], "again"), Err(AlreadyUsed));
    assert_eq!(gate.consume(near, "again"), Err(AlreadyUsed));
    assert_eq!(gate.consume([0u8; 32], "again"), Err(AlreadyUsed));
    assert!(!gate.is_consumed(&[2u8; 32]));
    assert_eq!(gate.record_of(&[1u8; 32]), Some(&"ones"));
    assert_eq!(gate.record_of(&near), Some(&"near"));
    assert_eq!(gate.record_of(&[0u8; 32]), Some(&"zeros"));
    assert_eq!(gate.record_of(&[2u8; 32]), None);
}

#[test]
fn a_journal_is_keyed_from_one() {
    let owner = Identity::new([1u8; 32]);
    let mut state = initialize(owner, 0);
    let mut journal: Journal<BatchRoot> = Journal::new();
    assert_eq!(journal.len(), 0);
    assert!(journal.ends_at(0));
    assert!(!journal.ends_at(1));
    assert_eq!(journal.get(0), None);
    assert_eq!(journal.get(1), None);
    let first = update_root(&mut state, &mut journal, &owner, [1u8; 32], 10, 0).unwrap();
    let second = update_root(&mut state, &mut journal, &owner, [2u8; 32], 20, 0).unwrap();
    let third = update_root(&mut state, &mut journal, &owner, [3u8; 32], 30, 0).unwrap();
    assert_eq!(journal.len(), 3);
    assert!(journal.ends_at(3));
    assert!(!journal.ends_at(2));
    assert_eq!(journal.get(0), None);
    assert_eq!(journal.get(1), Some(&first));
    assert_eq!(journal.get(2), Some(&second));
    assert_eq!(journal.get(3), Some(&third));
    assert_eq!(journal.get(4), None);
    assert_eq!(journal.get(u64::MAX), None);
    assert_eq!(third.batch_id, 3);
}

#[test]
fn a_resumed_journal_is_keyed_after_its_base() {
    let owner = Identity::new([1u8; 32]);
    let mut state = initialize(owner, 0);
    state.batch_id = 41;
    let mut journal: Journal<BatchRoot> = Journal::resume_after(41);
    assert!(journal.ends_at(41));
    assert!(!journal.ends_at(0));
    assert_eq!(journal.get(41), None);
    assert_eq!(journal.get(42), None);
    let entry = update_root(&mut state, &mut journal, &owner, [7u8; 32], 5, 0).unwrap();
    assert_eq!(entry.batch_id, 42);
    assert!(journal.ends_at(42));
    assert_eq!(journal.get(41), None);
    assert_eq!(journal.get(42), Some(&entry));
    assert_eq!(journal.get(43), None);
    assert_eq!(journal.get(1), None);
}

#[test]
fn a_journal_at_the_end_of_the_numbers() {
    let journal: Journal<BatchRoot> = Journal::resume_after(u64::MAX);
    assert!(journal.ends_at(u64::MAX));
    assert_eq!(journal.get(u64::MAX), None);
    assert_eq!(journal.get(0), None);
}
