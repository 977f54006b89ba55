//! Ownership and its two-step handover, as a mathematical model shared by
//! the ledgers.
//!
//! The owner offers the seat to a target; the target becomes owner only by
//! accepting. Until then the owner stays in charge and may withdraw the
//! offer. The handover operations of the settlement ledger and of the
//! custody vault are specified as these transitions on the owner and the
//! pending owner they store.

use vstd::prelude::*;
use crate::identity::zero_bytes;

verus! {

/// Who owns a ledger, and to whom it is on offer: `pending` is the default
/// identity, all zero, while no offer stands.
pub struct Seat {
    pub owner: Seq<u8>,
    pub pending: Seq<u8>,
}

/// Why a step of the handover is refused.
pub enum HandoverRefusal {
    /// The caller is not the party the step belongs to.
    Unauthorized,
    /// The default identity cannot be offered the seat.
    InvalidTarget,
    /// There is no offer to accept.
    NoPendingTransfer,
}

/// The owner offers the seat to `target`, replacing any earlier offer.
pub open spec fn offer(seat: Seat, caller: Seq<u8>, target: Seq<u8>) -> Result<Seat, HandoverRefusal> {
    if caller != seat.owner {
        Err(HandoverRefusal::Unauthorized)
    } else if target == zero_bytes() {
        Err(HandoverRefusal::InvalidTarget)
    } else {
        Ok(Seat { owner: seat.owner, pending: target })
    }
}

/// The pending owner takes the seat, which clears the offer.
pub open spec fn accept(seat: Seat, caller: Seq<u8>) -> Result<Seat, HandoverRefusal> {
    if seat.pending == zero_bytes() {
        Err(HandoverRefusal::NoPendingTransfer)
    } else if caller != seat.pending {
        Err(HandoverRefusal::Unauthorized)
    } else {
        Ok(Seat { owner: seat.pending, pending: zero_bytes() })
    }
}

/// The owner withdraws the offer, if there is one.
pub open spec fn cancel(seat: Seat, caller: Seq<u8>) -> Result<Seat, HandoverRefusal> {
    if caller != seat.owner {
        Err(HandoverRefusal::Unauthorized)
    } else {
        Ok(Seat { owner: seat.owner, pending: zero_bytes() })
    }
}

/// Only the owner offers the seat and only the owner withdraws the offer:
/// anyone else is refused with `Unauthorized`, whatever the target.
pub proof fn only_the_owner_offers_and_cancels(seat: Seat, caller: Seq<u8>, target: Seq<u8>)
    requires
        caller != seat.owner,
    ensures
        offer(seat, caller, target) == Err::<Seat, HandoverRefusal>(HandoverRefusal::Unauthorized),
        cancel(seat, caller) == Err::<Seat, HandoverRefusal>(HandoverRefusal::Unauthorized),
{
}

/// After an offer, exactly its target can accept, and accepting makes the
/// target owner and clears the offer.
pub proof fn only_the_target_accepts(seat: Seat, target: Seq<u8>, caller: Seq<u8>)
    requires
        target != zero_bytes(),
    ensures
        offer(seat, seat.owner, target) matches Ok(offered) && (accept(offered, caller) is Ok <==> caller
            == target) && accept(offered, target) == Ok::<Seat, HandoverRefusal>(
            Seat { owner: target, pending: zero_bytes() },
        ),
{
}

/// Of two offers in a row only the later one stands: its target can accept,
/// and the target of the earlier one, if another party, cannot.
pub proof fn the_latest_offer_stands(seat: Seat, earlier: Seq<u8>, later: Seq<u8>, caller: Seq<u8>)
    requires
        earlier != zero_bytes(),
        later != zero_bytes(),
    ensures
        offer(seat, seat.owner, earlier) matches Ok(first) && offer(first, first.owner, later) matches Ok(
            second,
        ) && (accept(second, caller) is Ok <==> caller == later),
{
}

/// Accepting succeeds only for the pending owner, whatever the seat.
pub proof fn accept_needs_the_pending_owner(seat: Seat, caller: Seq<u8>)
    ensures
        accept(seat, caller) is Ok ==> caller == seat.pending && seat.pending != zero_bytes(),
        accept(seat, caller) is Ok <==> seat.pending != zero_bytes() && caller == seat.pending,
{
}

/// Cancelling by the owner clears the offer whatever it was, and leaves
/// nothing to accept.
pub proof fn cancel_clears_any_offer(seat: Seat, caller: Seq<u8>)
    ensures
        cancel(seat, seat.owner) == Ok::<Seat, HandoverRefusal>(
            Seat { owner: seat.owner, pending: zero_bytes() },
        ),
        cancel(seat, seat.owner) matches Ok(cleared) && accept(cleared, caller)
            == Err::<Seat, HandoverRefusal>(HandoverRefusal::NoPendingTransfer),
{
}

/// A seat whose owner is set never loses its owner: no step of the handover
/// puts the default identity in the seat.
pub proof fn the_owner_is_never_unset(seat: Seat, caller: Seq<u8>, target: Seq<u8>)
    requires
        seat.owner != zero_bytes(),
    ensures
        offer(seat, caller, target) matches Ok(next) ==> next.owner != zero_bytes(),
        accept(seat, caller) matches Ok(next) ==> next.owner != zero_bytes(),
        cancel(seat, caller) matches Ok(next) ==> next.owner != zero_bytes(),
{
}

} // verus!
