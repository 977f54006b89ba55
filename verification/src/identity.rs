//! Thirty-two byte identities and the byte-level comparisons built on them.

use vstd::prelude::*;

verus! {

/// Thirty-two zero bytes: the value of an unset root, and the bytes of the
/// default identity.
pub open spec fn zero_bytes() -> Seq<u8> {
    Seq::new(32, |i: int| 0u8)
}

/// Whether two 32-byte values hold the same bytes.
pub fn bytes_eq(a: &[u8; 32], b: &[u8; 32]) -> (same: bool)
    ensures
        same == (a@ == b@),
{
    let mut i: usize = 0;
    while i < 32
        invariant
            i <= 32,
            forall|k: int| 0 <= k < i ==> a@[k] == b@[k],
        decreases 32 - i,
    {
        if a[i] != b[i] {
            return false;
        }
        i += 1;
    }
    assert(a@ =~= b@);
    true
}

/// Whether a 32-byte value is all zero.
pub fn is_zero(a: &[u8; 32]) -> (zero: bool)
    ensures
        zero == (a@ == zero_bytes()),
{
    let mut i: usize = 0;
    while i < 32
        invariant
            i <= 32,
            forall|k: int| 0 <= k < i ==> a@[k] == 0,
        decreases 32 - i,
    {
        if a[i] != 0 {
            assert(zero_bytes()[i as int] == 0);
            return false;
        }
        i += 1;
    }
    assert(a@ =~= zero_bytes());
    true
}

/// The identity of a party: an owner, an executor, a relayer, a depositor, a
/// recipient or an asset. Two identities are the same party exactly when their
/// bytes agree.
#[derive(Clone, Copy, Debug)]
pub struct Identity {
    pub bytes: [u8; 32],
}

impl View for Identity {
    type V = Seq<u8>;

    open spec fn view(&self) -> Seq<u8> {
        self.bytes@
    }
}

impl Identity {
    /// The identity with the given bytes.
    pub fn new(bytes: [u8; 32]) -> (id: Identity)
        ensures
            id.bytes == bytes,
    {
        Identity { bytes }
    }

    /// The default identity, all zero, which stands for "nobody".
    pub fn zero() -> (id: Identity)
        ensures
            id@ == zero_bytes(),
    {
        let id = Identity { bytes: [0u8; 32] };
        assert(id@ =~= zero_bytes());
        id
    }

    /// Whether this is the default identity.
    pub fn is_zero(&self) -> (zero: bool)
        ensures
            zero == (self@ == zero_bytes()),
    {
        is_zero(&self.bytes)
    }

    /// Whether `self` and `other` name the same party.
    pub fn same(&self, other: &Identity) -> (same: bool)
        ensures
            same == (self@ == other@),
    {
        bytes_eq(&self.bytes, &other.bytes)
    }
}

impl Default for Identity {
    fn default() -> (id: Identity)
        ensures
            id@ == zero_bytes(),
    {
        Identity::zero()
    }
}

impl PartialEq for Identity {
    fn eq(&self, other: &Identity) -> (same: bool) {
        bytes_eq(&self.bytes, &other.bytes)
    }
}

impl vstd::std_specs::cmp::PartialEqSpecImpl for Identity {
    open spec fn obeys_eq_spec() -> bool {
        true
    }

    open spec fn eq_spec(&self, other: &Identity) -> bool {
        self@ == other@
    }
}

impl Eq for Identity {

}

} // verus!
