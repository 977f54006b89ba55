//! Keccak-256 and the byte encodings that are hashed.

use vstd::prelude::*;

verus! {

/// The Keccak-256 digest of a byte string, as a mathematical function.
pub uninterp spec fn keccak256(data: Seq<u8>) -> Seq<u8>;

/// Calls `anchor_lang::solana_program::keccak::hash` and takes the 32 bytes
/// out of the `Hash` it returns. Trusted: the digest depends on the input
/// bytes alone, and `keccak256` is the name of that dependence. Nothing else
/// is claimed of it.
#[verifier::external_body]
pub(crate) fn keccak(data: &[u8]) -> (digest: [u8; 32])
    ensures
        digest@ == keccak256(data@),
{
    anchor_lang::solana_program::keccak::hash(data).to_bytes()
}

/// The `width` low-order bytes of `value`, least significant first.
pub open spec fn le_bytes(value: nat, width: nat) -> Seq<u8>
    decreases width,
{
    if width == 0 {
        Seq::empty()
    } else {
        seq![(value % 256) as u8] + le_bytes(value / 256, (width - 1) as nat)
    }
}

/// The unsigned number whose 64-bit pattern is that of `value` in two's
/// complement.
pub open spec fn twos_complement(value: i64) -> nat {
    if value >= 0 {
        value as nat
    } else {
        (value + 0x1_0000_0000_0000_0000) as nat
    }
}

/// Appends the eight little-endian bytes of `value` to `out`.
pub fn push_u64_le(out: &mut Vec<u8>, value: u64)
    ensures
        final(out)@ == old(out)@ + le_bytes(value as nat, 8),
{
    let ghost start = out@;
    let mut rest: u64 = value;
    let mut i: usize = 0;
    while i < 8
        invariant
            i <= 8,
            out@ + le_bytes(rest as nat, (8 - i) as nat) == start + le_bytes(value as nat, 8),
        decreases 8 - i,
    {
        let ghost before = out@;
        let low: u8 = (rest % 256) as u8;
        out.push(low);
        proof {
            let tail = le_bytes((rest / 256) as nat, (8 - i - 1) as nat);
            assert(le_bytes(rest as nat, (8 - i) as nat) == seq![low] + tail);
            assert(before.push(low) + tail =~= before + (seq![low] + tail));
        }
        rest = rest / 256;
        i += 1;
    }
    assert(le_bytes(rest as nat, 0) =~= Seq::<u8>::empty());
    assert(out@ + Seq::<u8>::empty() =~= out@);
}

/// Appends the eight little-endian bytes of the two's complement of `value`
/// to `out`.
pub fn push_i64_le(out: &mut Vec<u8>, value: i64)
    ensures
        final(out)@ == old(out)@ + le_bytes(twos_complement(value), 8),
{
    let pattern: u64 = if value >= 0 {
        value as u64
    } else {
        let above_min: u64 = (value + i64::MAX + 1) as u64;
        above_min + 0x8000_0000_0000_0000u64
    };
    push_u64_le(out, pattern);
}

/// Appends the 32 bytes of `word` to `out`.
pub fn push_bytes32(out: &mut Vec<u8>, word: &[u8; 32])
    ensures
        final(out)@ == old(out)@ + word@,
{
    let ghost start = out@;
    let mut i: usize = 0;
    while i < 32
        invariant
            i <= 32,
            out@ == start + word@.take(i as int),
        decreases 32 - i,
    {
        out.push(word[i]);
        assert(word@.take(i + 1) =~= word@.take(i as int).push(word@[i as int]));
        assert(start + word@.take(i + 1) =~= (start + word@.take(i as int)).push(word@[i as int]));
        i += 1;
    }
    assert(word@.take(32) =~= word@);
}

} // verus!
