//! The records a settlement ledger keeps.

use vstd::prelude::*;
use crate::authority::Seat;
use crate::identity::{zero_bytes, Identity};

verus! {

/// The most executors a ledger can have.
pub const MAX_EXECUTORS: usize = 10;

/// The most siblings a proof can have: the depth of the deepest tree.
pub const MAX_PROOF_LENGTH: usize = 32;

/// The books of one settlement ledger.
#[derive(Clone, Copy, Debug, PartialEq, Eq)]
pub struct SettlementState {
    /// The owner.
    pub authority: Identity,
    /// The party to whom the owner has offered the ledger; the default
    /// identity while no offer stands.
    pub pending_authority: Identity,
    /// The root of the latest batch; all zero until the first rotation.
    pub current_root: [u8; 32],
    /// The number of rotations made, which is the number of the latest batch.
    pub batch_id: u64,
    /// The number of executors.
    pub executor_count: u8,
    /// The executors, in the first `executor_count` places, in no
    /// particular order.
    pub executors: [Identity; MAX_EXECUTORS],
    /// The bump seed of the address at which the host stores the books.
    pub bump: u8,
}

impl SettlementState {
    /// Bytes the host needs to store the books.
    pub const LEN: usize = 8 + 32 + 32 + 32 + 8 + 1 + (32 * MAX_EXECUTORS) + 1;

    /// The executors, by their bytes, in the order in which they are stored.
    pub open spec fn executor_ids(&self) -> Seq<Seq<u8>> {
        Seq::new(self.executor_count as nat, |i: int| self.executors@[i]@)
    }

    /// The set of executors.
    pub open spec fn executor_set(&self) -> Set<Seq<u8>> {
        self.executor_ids().to_set()
    }

    /// The owner and the pending owner.
    pub open spec fn seat(&self) -> Seat {
        Seat { owner: self.authority@, pending: self.pending_authority@ }
    }

    /// The ledger has an owner: the default identity is nobody.
    pub open spec fn owner_is_set(&self) -> bool {
        self.authority@ != zero_bytes()
    }

    /// The books are well formed: there are at most `MAX_EXECUTORS`
    /// executors and none is stored twice.
    pub open spec fn wf(&self) -> bool {
        &&& self.executor_count <= MAX_EXECUTORS
        &&& self.executor_ids().no_duplicates()
    }

    /// The places beyond the executors hold the default identity: nothing
    /// is left behind where an executor was.
    pub open spec fn is_tidy(&self) -> bool {
        forall|i: int| self.executor_count <= i < MAX_EXECUTORS ==> (#[trigger] self.executors@[i])@ == zero_bytes()
    }

    /// Whether `id` may rotate the root: the owner and the executors may.
    pub open spec fn authorizes(&self, id: Seq<u8>) -> bool {
        id == self.authority@ || self.executor_set().contains(id)
    }

    /// In well-formed books the number of executors is the size of the
    /// executor set, which is therefore at most `MAX_EXECUTORS`.
    pub proof fn executor_count_is_set_size(&self)
        requires
            self.wf(),
        ensures
            self.executor_set().finite(),
            self.executor_set().len() == self.executor_count,
            self.executor_set().len() <= MAX_EXECUTORS,
    {
        self.executor_ids().unique_seq_to_set();
        vstd::seq_lib::seq_to_set_is_finite(self.executor_ids());
    }

    /// The place at which `id` is stored among the executors, if it is one.
    pub fn position(&self, id: &Identity) -> (found: Option<usize>)
        requires
            self.wf(),
        ensures
            match found {
                Some(at) => at < self.executor_count && self.executor_ids()[at as int] == id@,
                None => !self.executor_set().contains(id@),
            },
    {
        let count = self.executor_count as usize;
        let mut i: usize = 0;
        while i < count
            invariant
                i <= count,
                count == self.executor_count,
                count <= MAX_EXECUTORS,
                forall|k: int| 0 <= k < i ==> self.executor_ids()[k] != id@,
            decreases count - i,
        {
            if self.executors[i].same(id) {
                return Some(i);
            }
            i += 1;
        }
        None
    }

    /// Whether `pubkey` may rotate the root.
    pub fn is_executor(&self, pubkey: &Identity) -> (authorized: bool)
        requires
            self.wf(),
        ensures
            authorized == self.authorizes(pubkey@),
    {
        if pubkey.same(&self.authority) {
            return true;
        }
        self.position(pubkey).is_some()
    }

    /// Whether the books are well formed.
    pub fn is_well_formed(&self) -> (well_formed: bool)
        ensures
            well_formed == self.wf(),
    {
        if self.executor_count as usize > MAX_EXECUTORS {
            return false;
        }
        let count = self.executor_count as usize;
        let mut j: usize = 0;
        while j < count
            invariant
                j <= count,
                count == self.executor_count,
                count <= MAX_EXECUTORS,
                forall|a: int, b: int| 0 <= a < b < j ==> self.executor_ids()[a] != self.executor_ids()[b],
            decreases count - j,
        {
            let mut i: usize = 0;
            while i < j
                invariant
                    i <= j,
                    j < count,
                    count == self.executor_count,
                    count <= MAX_EXECUTORS,
                    forall|a: int| 0 <= a < i ==> self.executor_ids()[a] != self.executor_ids()[j as int],
                decreases j - i,
            {
                if self.executors[i].same(&self.executors[j]) {
                    assert(self.executor_ids()[i as int] == self.executor_ids()[j as int]);
                    return false;
                }
                i += 1;
            }
            j += 1;
        }
        true
    }
}

/// The record of the settlement that consumed a commitment.
#[derive(Clone, Copy, Debug, PartialEq, Eq)]
pub struct UsedCommitment {
    /// The commitment settled.
    pub commitment: [u8; 32],
    /// The batch that was current when it was settled.
    pub batch_id: u64,
    /// When it was settled.
    pub settled_at: i64,
    /// Who settled it.
    pub executor: Identity,
    /// The bump seed of the address at which the host stores the record.
    pub bump: u8,
}

impl UsedCommitment {
    /// Bytes the host needs to store the record.
    pub const LEN: usize = 8 + 32 + 8 + 8 + 32 + 1;
}

/// The record of one rotation of the root.
#[derive(Clone, Copy, Debug, PartialEq, Eq)]
pub struct BatchRoot {
    /// The number of the batch.
    pub batch_id: u64,
    /// The root of the batch.
    pub root: [u8; 32],
    /// When the root was submitted.
    pub created_at: i64,
    /// Who submitted it.
    pub executor: Identity,
    /// The bump seed of the address at which the host stores the record.
    pub bump: u8,
}

impl BatchRoot {
    /// Bytes the host needs to store the record.
    pub const LEN: usize = 8 + 8 + 32 + 8 + 32 + 1;
}

} // verus!
