//! The bounded, ordered store of captured requests.

use crate::record::{CapturedRequest, RecordView};
use vstd::prelude::*;
use vstd::slice::slice_subrange;

verus! {

/// How many of the oldest entries one eviction removes from a log of the given capacity:
/// a tenth of the capacity, rounded down.
pub open spec fn batch_len(capacity: nat) -> nat {
    capacity / 10
}

/// How many entries a request for `count` of them takes from `len`.
pub open spec fn taken(len: nat, count: nat) -> nat {
    if count <= len {
        count
    } else {
        len
    }
}

/// The entries that remain once the `count` oldest are removed.
pub open spec fn without_oldest<T>(entries: Seq<T>, count: nat) -> Seq<T> {
    entries.skip(taken(entries.len(), count) as int)
}

/// The `count` oldest entries.
pub open spec fn oldest<T>(entries: Seq<T>, count: nat) -> Seq<T> {
    entries.take(taken(entries.len(), count) as int)
}

/// Whether storing one more entry sets off an eviction.
pub open spec fn overflows(len: nat, capacity: nat) -> bool {
    len + 1 > capacity
}

/// The entries after one more is stored: it joins at the tail, and if that takes the
/// size past `capacity`, one batch leaves from the head.
pub open spec fn stored<T>(entries: Seq<T>, capacity: nat, record: T) -> Seq<T> {
    if overflows(entries.len(), capacity) {
        without_oldest(entries.push(record), batch_len(capacity))
    } else {
        entries.push(record)
    }
}

/// The entries after each of `records` is stored in turn.
pub open spec fn stored_all<T>(entries: Seq<T>, capacity: nat, records: Seq<T>) -> Seq<T>
    decreases records.len(),
{
    if records.len() == 0 {
        entries
    } else {
        stored(stored_all(entries, capacity, records.drop_last()), capacity, records.last())
    }
}

/// The windowed part of `entries` between two indices counted from the oldest,
/// with `end` held to the size and `start` held to `end`.
pub open spec fn window<T>(entries: Seq<T>, start: nat, end: nat) -> Seq<T> {
    let e = taken(entries.len(), end);
    let s = taken(e, start);
    entries.subrange(s as int, e as int)
}

/// What each of a sequence of records holds.
pub open spec fn views_of(entries: Seq<CapturedRequest>) -> Seq<RecordView> {
    Seq::new(entries.len(), |i: int| entries[i]@)
}

/// A store of captured requests in arrival order, with the capacity it is meant to keep to.
#[derive(Debug)]
pub struct RequestLog {
    entries: Vec<CapturedRequest>,
    capacity: usize,
}

impl RequestLog {
    /// The records held, oldest first.
    pub closed spec fn entries(self) -> Seq<CapturedRequest> {
        self.entries@
    }

    /// The configured capacity.
    pub closed spec fn spec_capacity(self) -> nat {
        self.capacity as nat
    }

    /// What the records hold, oldest first.
    pub open spec fn view(self) -> Seq<RecordView> {
        views_of(self.entries())
    }

    /// An empty log with the given capacity.
    pub fn new(capacity: usize) -> (log: RequestLog)
        ensures
            log.entries() == Seq::<CapturedRequest>::empty(),
            log.spec_capacity() == capacity,
    {
        RequestLog { entries: Vec::new(), capacity }
    }

    /// The configured capacity.
    pub fn capacity(&self) -> (c: usize)
        ensures
            c == self.spec_capacity(),
    {
        self.capacity
    }

    /// Number of records held.
    pub fn size(&self) -> (n: usize)
        ensures
            n == self.entries().len(),
    {
        self.entries.len()
    }

    /// Adds `record` at the tail.
    pub fn append(&mut self, record: CapturedRequest)
        ensures
            final(self).entries() == old(self).entries().push(record),
            final(self).spec_capacity() == old(self).spec_capacity(),
    {
        self.entries.push(record);
    }

    /// The records from index `start` up to, not including, index `end`, counted from the
    /// oldest. `end` is held to the size and `start` to `end`.
    pub fn snapshot_window(&self, start: usize, end: usize) -> (shown: &[CapturedRequest])
        ensures
            shown@ == window(self.entries(), start as nat, end as nat),
    {
        let len = self.entries.len();
        let e = if end <= len { end } else { len };
        let s = if start <= e { start } else { e };
        slice_subrange(self.entries.as_slice(), s, e)
    }

    /// Removes the `count` oldest records and returns them, oldest first. Where fewer
    /// are held, all of them leave.
    pub fn drain_oldest(&mut self, count: usize) -> (batch: Vec<CapturedRequest>)
        ensures
            batch@ == oldest(old(self).entries(), count as nat),
            final(self).entries() == without_oldest(old(self).entries(), count as nat),
            final(self).spec_capacity() == old(self).spec_capacity(),
            count >= old(self).entries().len() ==> batch@ == old(self).entries()
                && final(self).entries().len() == 0,
    {
        let len = self.entries.len();
        let n = if count <= len { count } else { len };
        let mut rest = self.entries.split_off(n);
        std::mem::swap(&mut self.entries, &mut rest);
        proof {
            let before = old(self).entries();
            assert(rest@ =~= before.take(n as int));
            assert(self.entries@ =~= before.skip(n as int));
            if count >= before.len() {
                assert(before.take(n as int) =~= before);
            }
        }
        rest
    }

    /// Stores `record`: appends it, and where that takes the size past the capacity,
    /// removes one batch of the oldest records and returns it.
    pub fn store(&mut self, record: CapturedRequest) -> (evicted: Option<Vec<CapturedRequest>>)
        ensures
            final(self).entries() == stored(old(self).entries(), old(self).spec_capacity(), record),
            final(self).spec_capacity() == old(self).spec_capacity(),
            evicted.is_some() == overflows(old(self).entries().len(), old(self).spec_capacity()),
            evicted.is_some() ==> evicted.unwrap()@ == oldest(
                old(self).entries().push(record),
                batch_len(old(self).spec_capacity()),
            ),
            old(self).spec_capacity() >= 10 && old(self).entries().len() <= old(
                self,
            ).spec_capacity() ==> final(self).entries().len() <= final(self).spec_capacity(),
    {
        self.append(record);
        if self.entries.len() > self.capacity {
            let batch = self.drain_oldest(self.capacity / 10);
            Some(batch)
        } else {
            None
        }
    }
}

/// A store that sets off an eviction removes exactly one batch, and it is the oldest entries
/// that leave.
pub proof fn lemma_store_evicts_batch<T>(entries: Seq<T>, capacity: nat, record: T)
    requires
        overflows(entries.len(), capacity),
    ensures
        stored(entries, capacity, record) == entries.push(record).skip(batch_len(capacity) as int),
        stored(entries, capacity, record).len() == entries.len() + 1 - batch_len(capacity),
        oldest(entries.push(record), batch_len(capacity)) == entries.push(record).take(
            batch_len(capacity) as int,
        ),
        oldest(entries.push(record), batch_len(capacity)).len() == batch_len(capacity),
{
}

/// With a capacity of at least ten, a log within its capacity is still within it after a
/// store.
pub proof fn lemma_store_keeps_bound<T>(entries: Seq<T>, capacity: nat, record: T)
    requires
        capacity >= 10,
        entries.len() <= capacity,
    ensures
        stored(entries, capacity, record).len() <= capacity,
{
}

/// With a capacity of at least ten, a log within its capacity is still within it after any
/// run of stores.
pub proof fn lemma_store_all_keeps_bound<T>(entries: Seq<T>, capacity: nat, records: Seq<T>)
    requires
        capacity >= 10,
        entries.len() <= capacity,
    ensures
        stored_all(entries, capacity, records).len() <= capacity,
    decreases records.len(),
{
    if records.len() > 0 {
        lemma_store_all_keeps_bound(entries, capacity, records.drop_last());
        lemma_store_keeps_bound(
            stored_all(entries, capacity, records.drop_last()),
            capacity,
            records.last(),
        );
    }
}

/// Draining more than a log holds returns all of it and leaves nothing.
pub proof fn lemma_drain_beyond_size<T>(entries: Seq<T>, count: nat)
    requires
        entries.len() < count,
    ensures
        oldest(entries, count) == entries,
        without_oldest(entries, count).len() == 0,
{
    assert(entries.take(entries.len() as int) =~= entries);
}

/// Storing a record and then looking at what the records hold gives the same as storing
/// what the record holds among what the others hold; the same goes for the batch that leaves.
pub proof fn lemma_views_of_stored(entries: Seq<CapturedRequest>, capacity: nat, record: CapturedRequest)
    ensures
        views_of(stored(entries, capacity, record)) == stored(views_of(entries), capacity, record@),
        views_of(oldest(entries.push(record), batch_len(capacity))) == oldest(
            views_of(entries).push(record@),
            batch_len(capacity),
        ),
{
    assert(views_of(entries.push(record)) =~= views_of(entries).push(record@));
    let grown = entries.push(record);
    let n = taken(grown.len(), batch_len(capacity)) as int;
    assert(views_of(grown.skip(n)) =~= views_of(grown).skip(n));
    assert(views_of(grown.take(n)) =~= views_of(grown).take(n));
}

} // verus!
