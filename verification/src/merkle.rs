//! Merkle inclusion proofs over Keccak-256 with domain-separated nodes.

use vstd::prelude::*;
use crate::digest::{keccak, keccak256, push_bytes32};
use crate::identity::bytes_eq;

verus! {

/// The tag byte that starts the preimage of every internal node, so that no
/// leaf can be read as a node.
pub const NODE_TAG: u8 = 1;

/// The bytes hashed for an internal node: the tag, the left child, the right
/// child.
pub open spec fn node_preimage(left: Seq<u8>, right: Seq<u8>) -> Seq<u8> {
    seq![NODE_TAG] + left + right
}

/// The hash of an internal node with the given children.
pub open spec fn node_hash(left: Seq<u8>, right: Seq<u8>) -> Seq<u8> {
    keccak256(node_preimage(left, right))
}

/// The bytes hashed one level up from `current`, which sits at position
/// `index` of its level and has `sibling` beside it: a node at an odd
/// position is a right child.
pub open spec fn parent_preimage(index: nat, current: Seq<u8>, sibling: Seq<u8>) -> Seq<u8> {
    if index % 2 == 1 {
        node_preimage(sibling, current)
    } else {
        node_preimage(current, sibling)
    }
}

/// The root reached from `leaf` at position `index` by hashing it with the
/// siblings of `path` in order, bottom-up, halving the position at each level.
pub open spec fn merkle_root(leaf: Seq<u8>, path: Seq<[u8; 32]>, index: nat) -> Seq<u8>
    decreases path.len(),
{
    if path.len() == 0 {
        leaf
    } else {
        merkle_root(
            keccak256(parent_preimage(index, leaf, path[0]@)),
            path.drop_first(),
            index / 2,
        )
    }
}

/// Builds the 65 bytes that are hashed for an internal node.
pub fn node_preimage_bytes(left: &[u8; 32], right: &[u8; 32]) -> (data: Vec<u8>)
    ensures
        data@ == node_preimage(left@, right@),
{
    let mut data: Vec<u8> = Vec::new();
    data.push(NODE_TAG);
    assert(data@ =~= seq![NODE_TAG]);
    push_bytes32(&mut data, left);
    push_bytes32(&mut data, right);
    data
}

/// Hashes two sibling nodes into their parent.
pub fn hash_pair(left: &[u8; 32], right: &[u8; 32]) -> (parent: [u8; 32])
    ensures
        parent@ == node_hash(left@, right@),
{
    let data = node_preimage_bytes(left, right);
    keccak(data.as_slice())
}

/// Recomputes the root from `leaf` and `proof` and reports whether it is
/// `root`.
pub fn verify_merkle_proof(leaf: &[u8; 32], proof: &[[u8; 32]], index: u64, root: &[u8; 32]) -> (valid: bool)
    ensures
        valid == (merkle_root(leaf@, proof@, index as nat) == root@),
{
    let mut computed: [u8; 32] = *leaf;
    let mut position: u64 = index;
    let mut i: usize = 0;
    assert(proof@.skip(0) =~= proof@);
    while i < proof.len()
        invariant
            i <= proof.len(),
            merkle_root(computed@, proof@.skip(i as int), position as nat) == merkle_root(
                leaf@,
                proof@,
                index as nat,
            ),
        decreases proof.len() - i,
    {
        let ghost rest = proof@.skip(i as int);
        proof {
            assert(rest[0] == proof@[i as int]);
            assert(rest.drop_first() =~= proof@.skip(i + 1));
        }
        computed = if position % 2 == 1 {
            // the node is a right child
            hash_pair(&proof[i], &computed)
        } else {
            // the node is a left child
            hash_pair(&computed, &proof[i])
        };
        position = position / 2;
        i += 1;
    }
    assert(proof@.skip(i as int).len() == 0);
    bytes_eq(&computed, root)
}

} // verus!
