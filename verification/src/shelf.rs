//! One namespace of the cache: entries by file name, each with the time it
//! was written.

use vstd::prelude::*;
use crate::table::{Row, Table};

verus! {

/// The mathematical value of a cache entry: when it was written, in seconds
/// since the Unix epoch, and what it holds.
pub struct EntryView<V> {
    pub updated_at: u64,
    pub payload: V,
}

/// A payload with the time it was written.
pub struct Stamped<P> {
    pub updated_at: u64,
    pub payload: P,
}

impl<P: DeepView> DeepView for Stamped<P> {
    type V = EntryView<P::V>;

    open spec fn deep_view(&self) -> EntryView<P::V> {
        EntryView { updated_at: self.updated_at, payload: self.payload.deep_view() }
    }
}

/// The entries of one namespace.
pub struct Shelf<P: DeepView> {
    table: Table<String, Stamped<P>>,
}

impl<P: DeepView> View for Shelf<P> {
    type V = Map<Seq<char>, EntryView<P::V>>;

    closed spec fn view(&self) -> Map<Seq<char>, EntryView<P::V>> {
        self.table@
    }
}

impl<P: DeepView> Shelf<P> {
    /// No file name is stored twice.
    pub closed spec fn wf(&self) -> bool {
        self.table.wf()
    }

    /// The number of entries.
    pub closed spec fn spec_len(&self) -> nat {
        self.table.spec_len()
    }

    /// A shelf without entries.
    pub fn new() -> (shelf: Self)
        ensures
            shelf.wf(),
            shelf@ == Map::<Seq<char>, EntryView<P::V>>::empty(),
    {
        Shelf { table: Table::new() }
    }

    /// The entry stored under `name`, if there is one.
    pub fn get(&self, name: &str) -> (found: Option<&Stamped<P>>)
        requires
            self.wf(),
        ensures
            match found {
                Some(entry) => self@.dom().contains(name@) && self@[name@] == entry.deep_view(),
                None => !self@.dom().contains(name@),
            },
    {
        let key = String::from_str(name);
        match self.table.get(&key) {
            Some(row) => Some(&row.value),
            None => None,
        }
    }

    /// Stores `payload` under `name` with the time `updated_at`, in place of
    /// what was stored under that name before.
    pub fn put(&mut self, name: String, updated_at: u64, payload: P)
        requires
            old(self).wf(),
        ensures
            final(self).wf(),
            final(self)@ == old(self)@.insert(
                name@,
                EntryView { updated_at, payload: payload.deep_view() },
            ),
    {
        self.table.put(name, Stamped { updated_at, payload });
    }

    /// The number of entries.
    pub fn len(&self) -> (n: usize)
        ensures
            n == self.spec_len(),
    {
        self.table.len()
    }

    /// The entry at a position with its file name, for walking through all
    /// of them. Every name comes at one position only.
    pub fn slot_at(&self, i: usize) -> (slot: &Row<String, Stamped<P>>)
        requires
            self.wf(),
            i < self.spec_len(),
        ensures
            self@.dom().contains(slot.key@),
            self@[slot.key@] == slot.value.deep_view(),
    {
        self.table.row_at(i)
    }
}

} // verus!
