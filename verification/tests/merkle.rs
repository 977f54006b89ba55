use sip_core::digest::{push_bytes32, push_i64_le, push_u64_le};
use sip_core::identity::{bytes_eq, is_zero, Identity};
use sip_core::merkle::{hash_pair, node_preimage_bytes, verify_merkle_proof};

const L: [u8; 32] = [0x11; 32];
const S: [u8; 32] = [0x22; 32];
const T: [u8; 32] = [0x33; 32];

const PAIR_L_S: [u8; 32] = [
    57, 183, 77, 235, 27, 225, 31, 166, 83, 157, 203, 231, 182, 118, 67, 45, 47, 148, 127, 58, 75, 33,
    178, 2, 206, 60, 230, 121, 54, 197, 243, 61,
];
const PAIR_S_L: [u8; 32] = [
    251, 120, 246, 146, 253, 147, 158, 14, 242, 98, 255, 158, 251, 77, 70, 184, 88, 139, 184, 184, 116,
    116, 76, 156, 1, 167, 192, 62, 13, 225, 235, 29,
];
const ROOT_L_AT_1: [u8; 32] = [
    103, 162, 155, 143, 201, 227, 58, 106, 236, 196, 197, 141, 131, 9, 218, 52, 14, 23, 117, 42, 239,
    142, 177, 94, 90, 185, 131, 205, 48, 142, 39, 31,
];

#[test]
fn node_preimage_is_tag_left_right() {
    let data = node_preimage_bytes(&L, &S);
    assert_eq!(data.len(), 65);
    assert_eq!(data[0], 1);
    assert_eq!(&data[1..33], &L[..]);
    assert_eq!(&data[33..65], &S[..]);
}

#[test]
fn odd_position_puts_the_sibling_first() {
    let as_left = hash_pair(&L, &S);
    let as_right = hash_pair(&S, &L);
    assert_ne!(as_left, as_right);
    for position in [0u64, 2, 6, u64::MAX - 1] {
        assert!(verify_merkle_proof(&L, &[S], position, &as_left));
        assert!(!verify_merkle_proof(&L, &[S], position, &as_right));
    }
    for position in [1u64, 3, 7, u64::MAX] {
        assert!(verify_merkle_proof(&L, &[S], position, &as_right));
        assert!(!verify_merkle_proof(&L, &[S], position, &as_left));
    }
}

#[test]
fn hash_pair_is_keccak_of_the_tagged_pair() {
    assert_eq!(hash_pair(&L, &S), PAIR_L_S);
    assert_eq!(hash_pair(&S, &L), PAIR_S_L);
}

#[test]
fn hash_pair_agrees_with_the_hasher_applied_to_the_parts() {
    let expected = anchor_lang::solana_program::keccak::hashv(&[&[1u8], &L[..], &S[..]]).to_bytes();
    assert_eq!(hash_pair(&L, &S), expected);
}

#[test]
fn proof_of_one_sibling() {
    assert!(verify_merkle_proof(&L, &[S], 0, &PAIR_L_S));
    assert!(verify_merkle_proof(&L, &[S], 1, &PAIR_S_L));
    assert!(!verify_merkle_proof(&L, &[S], 1, &PAIR_L_S));
    assert!(!verify_merkle_proof(&L, &[S], 0, &PAIR_S_L));
}

#[test]
fn proof_of_two_siblings_halves_the_position() {
    assert!(verify_merkle_proof(&L, &[S, T], 1, &ROOT_L_AT_1));
    assert!(!verify_merkle_proof(&L, &[S, T], 0, &ROOT_L_AT_1));
    assert!(!verify_merkle_proof(&L, &[S, T], 3, &ROOT_L_AT_1));
    assert!(!verify_merkle_proof(&L, &[T, S], 1, &ROOT_L_AT_1));
    assert!(verify_merkle_proof(&L, &[S, T], 5, &ROOT_L_AT_1));
}

#[test]
fn proof_without_siblings_compares_the_leaf_with_the_root() {
    assert!(verify_merkle_proof(&L, &[], 0, &L));
    assert!(verify_merkle_proof(&L, &[], 9, &L));
    assert!(!verify_merkle_proof(&L, &[], 0, &S));
}

#[test]
fn one_flipped_bit_invalidates_the_proof() {
    let mut leaf = L;
    leaf[0] ^= 1;
    assert!(!verify_merkle_proof(&leaf, &[S, T], 1, &ROOT_L_AT_1));
    let mut sibling = S;
    sibling[31] ^= 0x80;
    assert!(!verify_merkle_proof(&L, &[sibling, T], 1, &ROOT_L_AT_1));
    let mut root = ROOT_L_AT_1;
    root[17] ^= 4;
    assert!(!verify_merkle_proof(&L, &[S, T], 1, &root));
}

#[test]
fn little_endian_encodings() {
    let mut out = vec![9u8];
    push_u64_le(&mut out, 0x0102030405060708);
    assert_eq!(out, vec![9, 8, 7, 6, 5, 4, 3, 2, 1]);
    let mut out = Vec::new();
    push_u64_le(&mut out, u64::MAX);
    assert_eq!(out, vec![255u8; 8]);
    let mut out = Vec::new();
    push_i64_le(&mut out, -2);
    assert_eq!(out, vec![254, 255, 255, 255, 255, 255, 255, 255]);
    let mut out = Vec::new();
    push_i64_le(&mut out, i64::MIN);
    assert_eq!(out, i64::MIN.to_le_bytes().to_vec());
    let mut out = Vec::new();
    push_i64_le(&mut out, 1_700_000_000);
    assert_eq!(out, 1_700_000_000i64.to_le_bytes().to_vec());
    let mut out = vec![1u8, 2];
    push_bytes32(&mut out, &L);
    assert_eq!(out.len(), 34);
    assert_eq!(&out[2..], &L[..]);
}

#[test]
fn byte_comparisons() {
    assert!(bytes_eq(&L, &L));
    assert!(!bytes_eq(&L, &S));
    let mut near = L;
    near[31] = 0;
    assert!(!bytes_eq(&L, &near));
    assert!(is_zero(&[0u8; 32]));
    let mut almost = [0u8; 32];
    almost[31] = 1;
    assert!(!is_zero(&almost));
}

#[test]
fn identities() {
    assert!(Identity::zero().is_zero());
    assert!(Identity::default().is_zero());
    assert!(!Identity::new(L).is_zero());
    assert_eq!(Identity::new(L).bytes, L);
    assert!(Identity::new(L).same(&Identity::new(L)));
    assert!(!Identity::new(L).same(&Identity::new(S)));
    assert_eq!(Identity::new(L), Identity::new(L));
    assert_ne!(Identity::new(L), Identity::new(S));
}
