//! One-time use of 32-byte tokens: commitments and nullifiers.

use vstd::prelude::*;
use crate::identity::bytes_eq;

verus! {

/// The error of [`CommitmentGate::consume`]: the token was consumed before.
#[derive(Clone, Copy, Debug, PartialEq, Eq, Structural)]
pub struct AlreadyUsed;

/// The tokens that have been consumed, each with the record of its
/// consumption. A token gets its record at its first consumption and keeps
/// it for good: there is no operation that removes a token or replaces its
/// record. That a token has a record is what it means to be consumed.
#[derive(Debug)]
pub struct CommitmentGate<R> {
    entries: Vec<([u8; 32], R)>,
}

/// Whether `at` is the first place in `entries` that holds `token`.
spec fn is_first_place<R>(entries: Seq<([u8; 32], R)>, token: Seq<u8>, at: int) -> bool {
    &&& 0 <= at < entries.len()
    &&& entries[at].0@ == token
    &&& forall|j: int| 0 <= j < at ==> (#[trigger] entries[j]).0@ != token
}

/// Whether `token` occurs in `entries`.
spec fn occurs<R>(entries: Seq<([u8; 32], R)>, token: Seq<u8>) -> bool {
    exists|at: int| is_first_place(entries, token, at)
}

/// The first place in `entries` that holds `token`.
spec fn first_place<R>(entries: Seq<([u8; 32], R)>, token: Seq<u8>) -> int {
    choose|at: int| is_first_place(entries, token, at)
}

/// A token has at most one first place.
proof fn first_place_is_unique<R>(entries: Seq<([u8; 32], R)>, token: Seq<u8>, a: int, b: int)
    requires
        is_first_place(entries, token, a),
        is_first_place(entries, token, b),
    ensures
        a == b,
{
    if a < b {
        assert(entries[a].0@ != token);
    }
    if b < a {
        assert(entries[b].0@ != token);
    }
}

/// A token stored at some place has a first place.
proof fn stored_tokens_occur<R>(entries: Seq<([u8; 32], R)>, token: Seq<u8>, at: int)
    requires
        0 <= at < entries.len(),
        entries[at].0@ == token,
    ensures
        occurs(entries, token),
        first_place(entries, token) <= at,
    decreases at,
{
    if exists|j: int| 0 <= j < at && (#[trigger] entries[j]).0@ == token {
        let j = choose|j: int| 0 <= j < at && (#[trigger] entries[j]).0@ == token;
        stored_tokens_occur(entries, token, j);
    } else {
        assert(is_first_place(entries, token, at));
        first_place_is_unique(entries, token, at, first_place(entries, token));
    }
}

impl<R> View for CommitmentGate<R> {
    type V = Map<Seq<u8>, R>;

    closed spec fn view(&self) -> Map<Seq<u8>, R> {
        Map::new(
            |token: Seq<u8>| occurs(self.entries@, token),
            |token: Seq<u8>| self.entries@[first_place(self.entries@, token)].1,
        )
    }
}

impl<R> CommitmentGate<R> {
    /// A gate through which no token has passed.
    pub fn new() -> (gate: CommitmentGate<R>)
        ensures
            gate@ == Map::<Seq<u8>, R>::empty(),
    {
        let gate = CommitmentGate { entries: Vec::new() };
        assert(gate@ =~= Map::<Seq<u8>, R>::empty());
        gate
    }

    /// Whether `token` has been consumed.
    pub open spec fn consumed(&self, token: Seq<u8>) -> bool {
        self@.dom().contains(token)
    }

    /// Looks for the record of the consumption of `token`.
    pub fn record_of(&self, token: &[u8; 32]) -> (found: Option<&R>)
        ensures
            match found {
                Some(record) => self.consumed(token@) && self@[token@] == *record,
                None => !self.consumed(token@),
            },
    {
        let mut i: usize = 0;
        while i < self.entries.len()
            invariant
                i <= self.entries@.len(),
                forall|k: int| 0 <= k < i ==> (#[trigger] self.entries@[k]).0@ != token@,
            decreases self.entries@.len() - i,
        {
            if bytes_eq(&self.entries[i].0, token) {
                proof {
                    assert(is_first_place(self.entries@, token@, i as int));
                    first_place_is_unique(
                        self.entries@,
                        token@,
                        i as int,
                        first_place(self.entries@, token@),
                    );
                }
                return Some(&self.entries[i].1);
            }
            i += 1;
        }
        proof {
            if occurs(self.entries@, token@) {
                let at = first_place(self.entries@, token@);
                assert(self.entries@[at].0@ == token@);
            }
        }
        None
    }

    /// Whether `token` has been consumed.
    pub fn is_consumed(&self, token: &[u8; 32]) -> (consumed: bool)
        ensures
            consumed == self.consumed(token@),
    {
        self.record_of(token).is_some()
    }

    /// Consumes `token`: succeeds at its first use, which `record` then
    /// records for good, and fails ever after, leaving the first record in
    /// place. Whatever the outcome, the token is consumed afterwards and
    /// every token consumed before still is, with the record it had.
    pub fn consume(&mut self, token: [u8; 32], record: R) -> (result: Result<(), AlreadyUsed>)
        ensures
            result is Ok <==> !old(self).consumed(token@),
            result is Ok ==> final(self)@ == old(self)@.insert(token@, record),
            result is Err ==> final(self)@ == old(self)@,
            final(self)@.dom() == old(self)@.dom().insert(token@),
    {
        if self.is_consumed(&token) {
            assert(self@.dom() =~= self@.dom().insert(token@));
            Err(AlreadyUsed)
        } else {
            let ghost before = self.entries@;
            self.entries.push((token, record));
            proof {
                let after = self.entries@;
                let end = before.len() as int;
                assert(!occurs(before, token@));
                assert forall|at: int| 0 <= at < end implies (#[trigger] before[at]).0@ != token@ by {
                    if before[at].0@ == token@ {
                        stored_tokens_occur(before, token@, at);
                    }
                }
                assert(is_first_place(after, token@, end));
                assert forall|t: Seq<u8>, at: int| t != token@ implies (is_first_place(after, t, at)
                    <==> is_first_place(before, t, at)) by {
                    if is_first_place(before, t, at) {
                        assert forall|j: int| 0 <= j < at implies (#[trigger] after[j]).0@ != t by {
                            assert(after[j] == before[j]);
                        }
                        assert(after[at] == before[at]);
                    }
                    if is_first_place(after, t, at) {
                        assert(at != end);
                        assert forall|j: int| 0 <= j < at implies (#[trigger] before[j]).0@ != t by {
                            assert(after[j] == before[j]);
                        }
                        assert(after[at] == before[at]);
                    }
                }
                let expected = old(self)@.insert(token@, record);
                assert forall|t: Seq<u8>| self@.dom().contains(t) <==> expected.dom().contains(t) by {
                    if t == token@ {
                        assert(occurs(after, t));
                    } else {
                        if occurs(after, t) {
                            let at = first_place(after, t);
                            assert(is_first_place(before, t, at));
                        }
                        if occurs(before, t) {
                            let at = first_place(before, t);
                            assert(is_first_place(after, t, at));
                        }
                    }
                }
                assert forall|t: Seq<u8>| self@.dom().contains(t) implies self@[t] == expected[t] by {
                    if t == token@ {
                        first_place_is_unique(after, t, end, first_place(after, t));
                    } else {
                        let at = first_place(after, t);
                        assert(is_first_place(before, t, at));
                        first_place_is_unique(before, t, at, first_place(before, t));
                        assert(after[at] == before[at]);
                    }
                }
                assert(self@ =~= expected);
            }
            Ok(())
        }
    }
}

/// The tokens consumed once each token of `attempts` has been presented, in
/// order, to a gate that held `start`.
pub open spec fn consumed_after(start: Set<Seq<u8>>, attempts: Seq<Seq<u8>>) -> Set<Seq<u8>>
    decreases attempts.len(),
{
    if attempts.len() == 0 {
        start
    } else {
        consumed_after(start, attempts.drop_last()).insert(attempts.last())
    }
}

/// Whether the attempt at position `at` of `attempts` succeeds, the attempts
/// being presented in order to a gate that held `start`.
pub open spec fn succeeds(start: Set<Seq<u8>>, attempts: Seq<Seq<u8>>, at: int) -> bool {
    !consumed_after(start, attempts.take(at)).contains(attempts[at])
}

/// No sequence of attempts takes a consumed token back out, and each token
/// presented is consumed from then on.
pub proof fn consumed_stays_consumed(start: Set<Seq<u8>>, attempts: Seq<Seq<u8>>, token: Seq<u8>)
    ensures
        start.contains(token) ==> consumed_after(start, attempts).contains(token),
        attempts.contains(token) ==> consumed_after(start, attempts).contains(token),
    decreases attempts.len(),
{
    if attempts.len() > 0 {
        consumed_stays_consumed(start, attempts.drop_last(), token);
        if attempts.contains(token) && attempts.last() != token {
            let i = choose|i: int| 0 <= i < attempts.len() && attempts[i] == token;
            assert(attempts.drop_last()[i] == token);
        }
    }
}

/// Replay protection: in any sequence of attempts on any gate, a token that
/// was presented once is refused at every later attempt. So each token
/// succeeds at most once.
pub proof fn consume_succeeds_at_most_once(
    start: Set<Seq<u8>>,
    attempts: Seq<Seq<u8>>,
    first: int,
    later: int,
)
    requires
        0 <= first < later < attempts.len(),
        attempts[first] == attempts[later],
    ensures
        !succeeds(start, attempts, later),
{
    let earlier = attempts.take(later);
    assert(earlier[first] == attempts[first]);
    assert(earlier.contains(attempts[later]));
    consumed_stays_consumed(start, earlier, attempts[later]);
}

} // verus!
