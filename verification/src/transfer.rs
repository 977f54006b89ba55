//! The movement of value that an operation asks its host to carry out.

use vstd::prelude::*;
use crate::identity::Identity;

verus! {

/// One movement of value between a party and custody. The ledgers only keep
/// the books: an operation that moves value returns the transfer, and takes
/// effect if and only if the host carries it out. A host whose transfer fails
/// discards the operation as a whole, books included.
#[derive(Clone, Copy, Debug, PartialEq, Eq)]
pub enum Transfer {
    /// `amount` of `asset` moves from `from` into custody.
    IntoCustody { from: Identity, asset: Identity, amount: u64 },
    /// `amount` of `asset` moves out of custody to `to`.
    OutOfCustody { to: Identity, asset: Identity, amount: u64 },
}

impl Transfer {
    /// The amount moved.
    pub open spec fn spec_amount(&self) -> u64 {
        match *self {
            Transfer::IntoCustody { amount, .. } => amount,
            Transfer::OutOfCustody { amount, .. } => amount,
        }
    }

    /// The amount moved.
    #[verifier::when_used_as_spec(spec_amount)]
    pub fn amount(&self) -> (amount: u64)
        ensures
            amount == self.spec_amount(),
    {
        match self {
            Transfer::IntoCustody { amount, .. } => *amount,
            Transfer::OutOfCustody { amount, .. } => *amount,
        }
    }
}

} // verus!
