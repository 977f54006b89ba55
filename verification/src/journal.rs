//! Append-only logs keyed by sequence number.

use vstd::prelude::*;

verus! {

/// An append-only log of records. The record at position `i` has the
/// sequence number `base + i + 1`, where `base` is the number of records
/// that preceded the log: zero for a log kept from the beginning. Records
/// are added at the end and are never changed or removed.
#[derive(Debug)]
pub struct Journal<R> {
    base: u64,
    entries: Vec<R>,
}

impl<R> View for Journal<R> {
    type V = Seq<R>;

    closed spec fn view(&self) -> Seq<R> {
        self.entries@
    }
}

impl<R> Journal<R> {
    /// The number of records that preceded the log.
    pub closed spec fn base(&self) -> u64 {
        self.base
    }

    /// The sequence number of the last record, or of the last that preceded
    /// the log where it is empty.
    pub open spec fn last_sequence(&self) -> int {
        self.base() + self@.len()
    }

    /// The record with sequence number `sequence`, if the log holds it.
    pub open spec fn at(&self, sequence: u64) -> Option<R> {
        if self.base() < sequence <= self.last_sequence() {
            Some(self@[sequence - self.base() - 1])
        } else {
            None
        }
    }

    /// An empty log kept from the beginning.
    pub fn new() -> (journal: Journal<R>)
        ensures
            journal.base() == 0,
            journal@ == Seq::<R>::empty(),
    {
        Journal { base: 0, entries: Vec::new() }
    }

    /// An empty log that continues after `base` earlier records.
    pub fn resume_after(base: u64) -> (journal: Journal<R>)
        ensures
            journal.base() == base,
            journal@ == Seq::<R>::empty(),
    {
        Journal { base, entries: Vec::new() }
    }

    /// The number of records in the log.
    pub fn len(&self) -> (len: usize)
        ensures
            len == self@.len(),
    {
        self.entries.len()
    }

    /// Whether the log ends at `sequence`: whether that is the sequence
    /// number of its last record, or, where it is empty, of the last that
    /// preceded it.
    pub fn ends_at(&self, sequence: u64) -> (ends: bool)
        ensures
            ends == (self.last_sequence() == sequence),
    {
        sequence >= self.base && sequence - self.base == self.entries.len() as u64
    }

    /// Adds `record` at the end, under the sequence number that follows the
    /// last. Only the operations of the ledgers add records.
    pub(crate) fn append(&mut self, record: R)
        ensures
            final(self).base() == old(self).base(),
            final(self)@ == old(self)@.push(record),
    {
        self.entries.push(record);
    }

    /// Looks up the record with sequence number `sequence`.
    pub fn get(&self, sequence: u64) -> (found: Option<&R>)
        ensures
            match found {
                Some(record) => self.at(sequence) == Some(*record),
                None => self.at(sequence) is None,
            },
    {
        if sequence <= self.base {
            return None;
        }
        let offset: u64 = sequence - self.base - 1;
        if offset >= self.entries.len() as u64 {
            return None;
        }
        Some(&self.entries[offset as usize])
    }
}

} // verus!
