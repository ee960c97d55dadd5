//! Who hears of a change to the mirror. Changes to the mirror's structure and
//! changes to one entry's record go to separate listeners.

use crate::mirror::Change;
use vstd::prelude::*;

verus! {

/// A listener for the changes to one entry.
#[derive(Clone, Copy, Debug, PartialEq, Eq, Structural)]
pub struct EntryListener {
    /// The primary key of the entry.
    pub id: u32,
    /// The handle under which the host keeps the listener.
    pub listener: u64,
}

/// The subscriptions as mathematical values, each list in the order in which
/// the listeners subscribed.
pub struct SubscriptionsView {
    pub structure: Seq<u64>,
    pub entries: Seq<EntryListener>,
}

/// The listeners, each known by the handle under which the host keeps it.
#[derive(Debug)]
pub struct Subscriptions {
    structure: Vec<u64>,
    entries: Vec<EntryListener>,
}

impl View for Subscriptions {
    type V = SubscriptionsView;

    closed spec fn view(&self) -> SubscriptionsView {
        SubscriptionsView { structure: self.structure@, entries: self.entries@ }
    }
}

/// The listeners for the entry `id`, in the order in which they subscribed.
pub open spec fn listeners_of(entries: Seq<EntryListener>, id: u32) -> Seq<u64>
    decreases entries.len(),
{
    if entries.len() == 0 {
        Seq::empty()
    } else {
        let earlier = listeners_of(entries.drop_last(), id);
        if entries.last().id == id {
            earlier.push(entries.last().listener)
        } else {
            earlier
        }
    }
}

/// The listeners that hear of `change`: those for the structure where the
/// structure changed, those for the entry where one entry's record changed.
pub open spec fn notified(subscriptions: SubscriptionsView, change: Change) -> Seq<u64> {
    match change {
        Change::Structure => subscriptions.structure,
        Change::Entry(id) => listeners_of(subscriptions.entries, id),
    }
}

impl Subscriptions {
    /// No listeners.
    pub fn new() -> (subscriptions: Subscriptions)
        ensures
            subscriptions@.structure == Seq::<u64>::empty(),
            subscriptions@.entries == Seq::<EntryListener>::empty(),
    {
        Subscriptions { structure: Vec::new(), entries: Vec::new() }
    }

    /// Subscribes `listener` to changes of the mirror's structure.
    pub fn on_structural_change(&mut self, listener: u64)
        ensures
            final(self)@.structure == old(self)@.structure.push(listener),
            final(self)@.entries == old(self)@.entries,
    {
        self.structure.push(listener);
    }

    /// Subscribes `listener` to changes of the record of the entry `id`.
    pub fn on_entry_change(&mut self, id: u32, listener: u64)
        ensures
            final(self)@.structure == old(self)@.structure,
            final(self)@.entries == old(self)@.entries.push(EntryListener { id, listener }),
    {
        self.entries.push(EntryListener { id, listener });
    }

    /// The listeners to call for `change`, in the order in which they
    /// subscribed.
    pub fn listeners_for(&self, change: Change) -> (listeners: Vec<u64>)
        ensures
            listeners@ == notified(self@, change),
    {
        match change {
            Change::Structure => self.structure.clone(),
            Change::Entry(id) => {
                let mut listeners: Vec<u64> = Vec::new();
                let mut i: usize = 0;
                while i < self.entries.len()
                    invariant
                        i <= self.entries.len(),
                        listeners@ == listeners_of(self.entries@.take(i as int), id),
                    decreases self.entries.len() - i,
                {
                    assert(self.entries@.take(i + 1).drop_last() =~= self.entries@.take(i as int));
                    if self.entries[i].id == id {
                        listeners.push(self.entries[i].listener);
                    }
                    i += 1;
                }
                assert(self.entries@.take(i as int) =~= self.entries@);
                listeners
            },
        }
    }
}

} // verus!
