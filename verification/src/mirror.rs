//! The mirror: the ordered in-memory copy of the persisted records that
//! observers render from.

use crate::record::{ids_of, records_view, DomRecord, RecordView};
use vstd::prelude::*;

verus! {

/// What observers are told after the mirror has changed.
#[derive(Clone, Copy, Debug, PartialEq, Eq, Structural)]
pub enum Change {
    /// Entries were added or removed, or their order changed.
    Structure,
    /// The record of the entry with this primary key was replaced.
    Entry(u32),
}

/// Why the mirror refused a change.
#[derive(Clone, Copy, Debug, PartialEq, Eq, Structural)]
pub enum MirrorError {
    /// An entry with this primary key is already there.
    DuplicateId(u32),
    /// No entry has this primary key.
    UnknownId(u32),
    /// The entry with this primary key has another identity.
    IdentityChanged(u32),
}

/// The mirror. Its entries stand in the order that the last load gave them,
/// followed by the appended ones in the order in which they came.
#[derive(Debug)]
pub struct AppState {
    pub contents: Vec<DomRecord>,
}

impl View for AppState {
    type V = Seq<RecordView>;

    open spec fn view(&self) -> Seq<RecordView> {
        records_view(self.contents@)
    }
}

impl Default for AppState {
    /// An empty mirror.
    fn default() -> (state: AppState)
        ensures
            state@ == Seq::<RecordView>::empty(),
    {
        AppState::new()
    }
}

impl Clone for AppState {
    fn clone(&self) -> (copy: Self)
        ensures
            copy@ == self@,
    {
        AppState { contents: self.snapshot() }
    }
}

/// Whether some record of the list has the primary key `id`.
pub open spec fn holds_id(records: Seq<RecordView>, id: u32) -> bool {
    exists|i: int| 0 <= i < records.len() && (#[trigger] records[i]).id == id
}

/// Whether no two records of the list share a primary key.
pub open spec fn ids_distinct(records: Seq<RecordView>) -> bool {
    forall|i: int, j: int|
        0 <= i < j < records.len() ==> (#[trigger] records[i]).id != (#[trigger] records[j]).id
}

/// The position of the first record with the primary key `id`.
pub open spec fn position_of(records: Seq<RecordView>, id: u32) -> int {
    choose|i: int|
        0 <= i < records.len() && (#[trigger] records[i]).id == id && forall|j: int|
            0 <= j < i ==> (#[trigger] records[j]).id != id
}

/// The largest order hint among the first `n` records, or -1 where there
/// is none.
pub open spec fn max_order(records: Seq<RecordView>, n: int) -> int
    decreases n,
{
    if n <= 0 {
        -1
    } else {
        let rest = max_order(records, n - 1);
        if records[n - 1].order > rest {
            records[n - 1].order as int
        } else {
            rest
        }
    }
}

/// The order hint for the next record: one more than the largest in the
/// list, 0 for an empty list, and none where the largest cannot be exceeded.
pub open spec fn next_order_of(records: Seq<RecordView>) -> Option<u32> {
    let next = max_order(records, records.len() as int) + 1;
    if next <= u32::MAX {
        Some(next as u32)
    } else {
        None
    }
}

/// A list without shared primary keys stays one when it gains a record whose
/// primary key it does not hold.
pub proof fn lemma_append_keeps_ids_distinct(records: Seq<RecordView>, record: RecordView)
    requires
        ids_distinct(records),
        !holds_id(records, record.id),
    ensures
        ids_distinct(records.push(record)),
{
    let grown = records.push(record);
    assert forall|i: int, j: int| 0 <= i < j < grown.len() implies (#[trigger] grown[i]).id
        != (#[trigger] grown[j]).id by {
        if j == records.len() {
            assert(records[i].id != record.id);
        } else {
            assert(records[i].id != records[j].id);
        }
    }
}

impl AppState {
    /// An empty mirror.
    pub fn new() -> (state: AppState)
        ensures
            state@ == Seq::<RecordView>::empty(),
    {
        let state = AppState { contents: Vec::new() };
        assert(state@ =~= Seq::<RecordView>::empty());
        state
    }

    /// Replaces the whole content with `records`, in the order given, in one
    /// step: observers hear of one structural change. Afterwards the mirror's
    /// primary keys, in its order, are those of `records`, in theirs.
    pub fn load(&mut self, records: Vec<DomRecord>) -> (change: Change)
        ensures
            final(self)@ == records_view(records@),
            ids_of(final(self)@) == ids_of(records_view(records@)),
            change == Change::Structure,
    {
        self.contents = records;
        Change::Structure
    }

    /// Adds `record` at the tail, unless an entry already has its primary
    /// key: then nothing changes.
    pub fn append(&mut self, record: DomRecord) -> (r: Result<Change, MirrorError>)
        ensures
            match r {
                Ok(change) => {
                    &&& !holds_id(old(self)@, record.id)
                    &&& final(self)@ == old(self)@.push(record@)
                    &&& ids_distinct(old(self)@) ==> ids_distinct(final(self)@)
                    &&& change == Change::Structure
                },
                Err(e) => {
                    &&& holds_id(old(self)@, record.id)
                    &&& final(self)@ == old(self)@
                    &&& e == MirrorError::DuplicateId(record.id)
                },
            },
    {
        if self.contains_id(record.id) {
            Err(MirrorError::DuplicateId(record.id))
        } else {
            let ghost added = record@;
            self.contents.push(record);
            proof {
                assert(self@ =~= old(self)@.push(added));
                if ids_distinct(old(self)@) {
                    lemma_append_keeps_ids_distinct(old(self)@, added);
                }
            }
            Ok(Change::Structure)
        }
    }

    /// Removes every entry.
    pub fn clear(&mut self) -> (change: Change)
        ensures
            final(self)@ == Seq::<RecordView>::empty(),
            change == Change::Structure,
    {
        self.contents.clear();
        assert(self@ =~= Seq::<RecordView>::empty());
        Change::Structure
    }

    /// Replaces the record of the first entry that has the primary key of
    /// `record`, if `record` has that entry's identity too. The entries keep
    /// their places, so observers hear of a change to that entry alone.
    pub fn replace(&mut self, record: DomRecord) -> (r: Result<Change, MirrorError>)
        ensures
            match r {
                Ok(change) => {
                    &&& holds_id(old(self)@, record.id)
                    &&& old(self)@[position_of(old(self)@, record.id)].uuid == record.uuid
                    &&& final(self)@ == old(self)@.update(
                        position_of(old(self)@, record.id),
                        record@,
                    )
                    &&& ids_of(final(self)@) == ids_of(old(self)@)
                    &&& change == Change::Entry(record.id)
                },
                Err(e) => {
                    &&& final(self)@ == old(self)@
                    &&& if holds_id(old(self)@, record.id) {
                        &&& old(self)@[position_of(old(self)@, record.id)].uuid != record.uuid
                        &&& e == MirrorError::IdentityChanged(record.id)
                    } else {
                        e == MirrorError::UnknownId(record.id)
                    }
                },
            },
    {
        let mut i: usize = 0;
        while i < self.contents.len()
            invariant
                i <= self.contents.len(),
                *self == *old(self),
                forall|j: int| 0 <= j < i ==> (#[trigger] self@[j]).id != record.id,
            decreases self.contents.len() - i,
        {
            if self.contents[i].id == record.id {
                let ghost added = record@;
                let id: u32 = record.id;
                assert(self@[i as int].id == record.id);
                assert(position_of(self@, record.id) == i as int);
                if self.contents[i].uuid != record.uuid {
                    return Err(MirrorError::IdentityChanged(id));
                }
                self.contents.set(i, record);
                assert(self@ =~= old(self)@.update(i as int, added));
                assert(ids_of(self@) =~= ids_of(old(self)@));
                return Ok(Change::Entry(id));
            }
            i += 1;
        }
        Err(MirrorError::UnknownId(record.id))
    }

    /// The number of entries.
    pub fn len(&self) -> (n: usize)
        ensures
            n == self@.len(),
    {
        self.contents.len()
    }

    /// Whether an entry has the primary key `id`.
    pub fn contains_id(&self, id: u32) -> (found: bool)
        ensures
            found == holds_id(self@, id),
    {
        let mut i: usize = 0;
        while i < self.contents.len()
            invariant
                i <= self.contents.len(),
                forall|j: int| 0 <= j < i ==> (#[trigger] self@[j]).id != id,
            decreases self.contents.len() - i,
        {
            if self.contents[i].id == id {
                assert(self@[i as int].id == id);
                return true;
            }
            i += 1;
        }
        false
    }

    /// The first entry with the primary key `id`.
    pub fn get(&self, id: u32) -> (entry: Option<&DomRecord>)
        ensures
            match entry {
                Some(record) => holds_id(self@, id) && record@ == self@[position_of(self@, id)],
                None => !holds_id(self@, id),
            },
    {
        let mut i: usize = 0;
        while i < self.contents.len()
            invariant
                i <= self.contents.len(),
                forall|j: int| 0 <= j < i ==> (#[trigger] self@[j]).id != id,
            decreases self.contents.len() - i,
        {
            if self.contents[i].id == id {
                assert(self@[i as int].id == id);
                assert(position_of(self@, id) == i as int);
                return Some(&self.contents[i]);
            }
            i += 1;
        }
        None
    }

    /// A copy of the records, in the mirror's order.
    pub fn snapshot(&self) -> (records: Vec<DomRecord>)
        ensures
            records_view(records@) == self@,
    {
        let mut records: Vec<DomRecord> = Vec::new();
        let mut i: usize = 0;
        while i < self.contents.len()
            invariant
                i <= self.contents.len(),
                records.len() == i,
                forall|j: int| 0 <= j < i ==> (#[trigger] records@[j])@ == self@[j],
            decreases self.contents.len() - i,
        {
            records.push(self.contents[i].clone());
            i += 1;
        }
        assert(records_view(records@) =~= self@);
        records
    }

    /// The primary keys of the entries, in the mirror's order.
    pub fn current_ordered_ids(&self) -> (ids: Vec<u32>)
        ensures
            ids@ == ids_of(self@),
    {
        let mut ids: Vec<u32> = Vec::new();
        let mut i: usize = 0;
        while i < self.contents.len()
            invariant
                i <= self.contents.len(),
                ids.len() == i,
                forall|j: int| 0 <= j < i ==> ids@[j] == self@[j].id,
            decreases self.contents.len() - i,
        {
            ids.push(self.contents[i].id);
            i += 1;
        }
        assert(ids@ =~= ids_of(self@));
        ids
    }

    /// The order hint for the next record, by the mirror's present
    /// content.
    pub fn next_order(&self) -> (next: Option<u32>)
        ensures
            next == next_order_of(self@),
    {
        let mut largest: Option<u32> = None;
        let mut i: usize = 0;
        while i < self.contents.len()
            invariant
                i <= self.contents.len(),
                match largest {
                    Some(m) => max_order(self@, i as int) == m,
                    None => max_order(self@, i as int) == -1,
                },
            decreases self.contents.len() - i,
        {
            let order: u32 = self.contents[i].order;
            largest = match largest {
                Some(m) => if order > m {
                    Some(order)
                } else {
                    Some(m)
                },
                None => Some(order),
            };
            i += 1;
        }
        match largest {
            Some(m) => if m < u32::MAX {
                Some(m + 1)
            } else {
                None
            },
            None => Some(0),
        }
    }
}

} // verus!
