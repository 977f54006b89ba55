//! Conservation of the tracked balance.
//!
//! A tracked balance changes in two ways only: an accepted deposit raises it
//! by the amount deposited, an accepted withdrawal lowers it by the amount
//! withdrawn and is accepted only where the balance covers the amount. From
//! these two facts, which the deposit and withdrawal operations guarantee
//! step by step, the balance of every reachable state is what was deposited
//! less what was withdrawn.

use vstd::prelude::*;

verus! {

/// One accepted movement of a tracked balance.
pub enum Movement {
    /// A deposit of the amount.
    In(u64),
    /// A withdrawal of the amount.
    Out(u64),
}

/// Whether `movement` takes a tracked balance from `before` to `after`: a
/// deposit adds its amount, a withdrawal is covered by the balance and
/// subtracts its amount, and neither is of nothing.
pub open spec fn moves(before: u64, movement: Movement, after: u64) -> bool {
    match movement {
        Movement::In(amount) => amount > 0 && after == before + amount,
        Movement::Out(amount) => amount > 0 && amount <= before && after == before - amount,
    }
}

/// The sum of the deposits among `movements`.
pub open spec fn total_in(movements: Seq<Movement>) -> int
    decreases movements.len(),
{
    if movements.len() == 0 {
        0
    } else {
        total_in(movements.drop_last()) + match movements.last() {
            Movement::In(amount) => amount as int,
            Movement::Out(_) => 0,
        }
    }
}

/// The sum of the withdrawals among `movements`.
pub open spec fn total_out(movements: Seq<Movement>) -> int
    decreases movements.len(),
{
    if movements.len() == 0 {
        0
    } else {
        total_out(movements.drop_last()) + match movements.last() {
            Movement::In(_) => 0,
            Movement::Out(amount) => amount as int,
        }
    }
}

/// Whether `balances` are the balances that a freshly opened ledger passes
/// through under `movements`: it starts at zero and each movement takes it
/// from one balance to the next.
pub open spec fn is_history(balances: Seq<u64>, movements: Seq<Movement>) -> bool {
    &&& balances.len() == movements.len() + 1
    &&& balances[0] == 0
    &&& forall|i: int| 0 <= i < movements.len() ==> moves(#[trigger] balances[i], movements[i], balances[i + 1])
}

/// Balance conservation: at every point of every history the tracked
/// balance is the sum of the deposits so far less the sum of the withdrawals
/// so far.
pub proof fn balance_is_conserved(balances: Seq<u64>, movements: Seq<Movement>, at: int)
    requires
        is_history(balances, movements),
        0 <= at < balances.len(),
    ensures
        balances[at] == total_in(movements.take(at)) - total_out(movements.take(at)),
    decreases at,
{
    if at == 0 {
        assert(movements.take(0).len() == 0);
    } else {
        balance_is_conserved(balances, movements, at - 1);
        let so_far = movements.take(at);
        assert(so_far.drop_last() =~= movements.take(at - 1));
        assert(so_far.last() == movements[at - 1]);
        assert(moves(balances[at - 1], movements[at - 1], balances[at]));
    }
}

/// No withdrawal that the balance does not cover is part of any history: a
/// withdrawal is accepted only where it leaves the balance at or above zero.
pub proof fn withdrawals_are_covered(balances: Seq<u64>, movements: Seq<Movement>, at: int)
    requires
        is_history(balances, movements),
        0 <= at < movements.len(),
    ensures
        movements[at] matches Movement::Out(amount) ==> amount <= total_in(movements.take(at)) - total_out(
            movements.take(at),
        ),
{
    balance_is_conserved(balances, movements, at);
    assert(moves(balances[at], movements[at], balances[at + 1]));
}

} // verus!
