//! Boards, columns and cards: what the backend lists.

use vstd::prelude::*;

verus! {

/// One named item of the backend: a board, a column or a card. Its identity
/// is `id`; `name` is what the screen shows.
#[derive(Debug, PartialEq, Eq)]
pub struct Entry {
    pub id: String,
    pub name: String,
}

/// A top-level workspace, shown as one selectable tab.
pub type Board = Entry;

/// A named list of cards within a board.
pub type Column = Entry;

/// A single work item within a column.
pub type Card = Entry;

/// The mathematical content of an [`Entry`].
pub ghost struct EntryView {
    pub id: Seq<char>,
    pub name: Seq<char>,
}

impl View for Entry {
    type V = EntryView;

    open spec fn view(&self) -> EntryView {
        EntryView { id: self.id@, name: self.name@ }
    }
}

/// The contents of a list of entries, in order.
pub open spec fn entries_view(entries: Seq<Entry>) -> Seq<EntryView> {
    entries.map_values(|e: Entry| e@)
}

impl Entry {
    /// The entry with the given id and name.
    pub fn new(id: String, name: String) -> (entry: Entry)
        ensures
            entry@ == (EntryView { id: id@, name: name@ }),
    {
        Entry { id, name }
    }

    /// A copy with the same id and name.
    pub fn duplicate(&self) -> (copy: Entry)
        ensures
            copy@ == self@,
    {
        Entry { id: self.id.clone(), name: self.name.clone() }
    }
}

impl Clone for Entry {
    fn clone(&self) -> (copy: Entry)
        ensures
            copy@ == self@,
    {
        self.duplicate()
    }
}

} // verus!
