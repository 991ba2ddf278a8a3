//! The values that client and server exchange: a todo entry and the list
//! of entries that the task routes answer with.

use vstd::prelude::*;

verus! {

/// One todo item. `_id` is the store's id of the item, written as text;
/// it is empty for an item that was never saved.
#[derive(Debug, PartialEq)]
pub struct Entry {
    pub _id: String,
    pub completed: bool,
    pub description: String,
    pub editing: bool,
}

/// What an entry holds, as plain values.
pub struct EntryView {
    pub id: Seq<char>,
    pub completed: bool,
    pub description: Seq<char>,
    pub editing: bool,
}

impl View for Entry {
    type V = EntryView;

    open spec fn view(&self) -> EntryView {
        EntryView {
            id: self._id@,
            completed: self.completed,
            description: self.description@,
            editing: self.editing,
        }
    }
}

impl Clone for Entry {
    fn clone(&self) -> (r: Self)
        ensures
            r == *self,
    {
        Entry {
            _id: self._id.clone(),
            completed: self.completed,
            description: self.description.clone(),
            editing: self.editing,
        }
    }
}

/// The views of a sequence of entries.
pub open spec fn entry_views(v: Seq<Entry>) -> Seq<EntryView> {
    v.map_values(|e: Entry| e@)
}

/// A copy of a list of entries, entry by entry.
pub fn copy_entries(v: &Vec<Entry>) -> (r: Vec<Entry>)
    ensures
        r@ == v@,
{
    let mut r: Vec<Entry> = Vec::new();
    for i in 0..v.len()
        invariant
            r@ == v@.take(i as int),
    {
        r.push(v[i].clone());
        assert(r@ =~= v@.take(i + 1));
    }
    assert(v@.take(v.len() as int) =~= v@);
    r
}

/// The body of the task routes: the list of entries.
#[derive(Debug)]
pub struct TaskResponse {
    pub tasks: Vec<Entry>,
}

} // verus!
