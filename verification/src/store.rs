//! The server's side of the task store: how a stored document becomes an
//! entry, and how a list of entries is saved one entry at a time. The
//! store itself is reached by the server; this module decides which request
//! comes next and what each answer means.

use vstd::prelude::*;
use crate::models::{Entry, EntryView, copy_entries};
use crate::object_id::{
    is_object_id_text, object_id_bytes_of, object_id_text, object_id_text_of, parse_object_id,
};

verus! {

/// A stored task document, as the store gives its fields: each one present
/// with the expected type, or not.
#[derive(Debug)]
pub struct TaskDocument {
    /// The document's `_id`, when it is an object id.
    pub id: Option<[u8; 12]>,
    pub completed: Option<bool>,
    pub description: Option<String>,
    pub editing: Option<bool>,
}

/// The entry that a stored document stands for, when it has all four
/// fields; the id is written as text.
pub fn document_to_entry(doc: &TaskDocument) -> (r: Option<Entry>)
    ensures
        r is Some <==> (doc.id is Some && doc.completed is Some && doc.description is Some
            && doc.editing is Some),
        r matches Some(e) ==> {
            &&& e._id@ == object_id_text_of(doc.id->0@)
            &&& e.completed == doc.completed->0
            &&& e.description == doc.description->0
            &&& e.editing == doc.editing->0
        },
{
    match (&doc.id, &doc.completed, &doc.description, &doc.editing) {
        (Some(id), Some(completed), Some(description), Some(editing)) => Some(
            Entry {
                _id: object_id_text(*id),
                completed: *completed,
                description: description.clone(),
                editing: *editing,
            },
        ),
        _ => None,
    }
}

/// `entry` as it is after the store inserted it as the document `id`.
pub fn with_new_id(entry: Entry, id: [u8; 12]) -> (r: Entry)
    ensures
        r@ == (EntryView { id: object_id_text_of(id@), ..entry@ }),
{
    Entry { _id: object_id_text(id), ..entry }
}

/// The object id of the document that an entry's id names, when the id
/// is twenty-four hexadecimal digits; the store is then asked to delete that
/// document (and otherwise the server gives up).
pub fn document_id(entry_id: &str) -> (r: Option<[u8; 12]>)
    ensures
        r is Some <==> is_object_id_text(entry_id@),
        r matches Some(b) ==> b@ == object_id_bytes_of(entry_id@),
{
    parse_object_id(entry_id)
}

/// The text under which clients know the document that the store just
/// inserted as `id`.
pub fn id_text(id: [u8; 12]) -> (r: String)
    ensures
        r@ == object_id_text_of(id@),
        is_object_id_text(r@),
        object_id_bytes_of(r@) == id@,
{
    proof {
        crate::object_id::law_object_id_round_trip(id@);
    }
    object_id_text(id)
}

/// What is done with an entry that has no id.
#[derive(Clone, Copy, Debug, PartialEq, Eq, Structural)]
pub enum BlankIdRule {
    /// It is inserted as a new document.
    Insert,
    /// All documents are looked up, as for an id: one found is updated,
    /// otherwise the entry is inserted.
    FindAll,
    /// It is an invalid id.
    Reject,
}

/// A request to the store.
#[derive(Debug)]
pub enum StoreRequest {
    /// Insert a document with the entry's `completed`, `description` and
    /// `editing`.
    Insert(Entry),
    /// Find the documents whose `_id` is this object id.
    FindById([u8; 12]),
    /// Find all documents.
    FindAll,
    /// Update the one document found with the entry's `completed`,
    /// `description` and `editing`.
    UpdateFound(Entry),
}

/// The store's answer to the last request.
#[derive(Debug)]
pub enum StoreReply {
    /// The insert made the document with this object id.
    Inserted([u8; 12]),
    /// The lookup found this many documents.
    Found(usize),
    /// The update is done.
    Updated,
}

/// What the server does next.
#[derive(Debug)]
pub enum SaveStep {
    /// Send this request to the store.
    Request(StoreRequest),
    /// The entry has an id that is no object id: saving cannot go on.
    InvalidId,
    /// All entries are saved; these are the saved entries.
    Done(Vec<Entry>),
}

/// Where the session stands with the entry at `next`.
#[derive(Clone, Copy, Debug, PartialEq, Eq, Structural)]
pub enum Stage {
    /// Nothing asked yet.
    Ready,
    /// Waiting for the lookup of the entry's document.
    Finding,
    /// Waiting for the update of the found document.
    Updating,
    /// Waiting for the insert of the entry.
    Inserting,
}

/// The saved entry keeps what the entry holds, but for its id.
pub open spec fn keeps_fields(entry: EntryView, saved: EntryView) -> bool {
    &&& saved.completed == entry.completed
    &&& saved.description == entry.description
    &&& saved.editing == entry.editing
}

/// Saving a list of entries, one request at a time.
#[derive(Debug)]
pub struct SaveSession {
    pub entries: Vec<Entry>,
    pub rule: BlankIdRule,
    pub next: usize,
    pub saved: Vec<Entry>,
    pub stage: Stage,
}

impl SaveSession {
    /// The entries before `next` are saved, one saved entry each, in order;
    /// a saved entry keeps its entry's fields and has its entry's id or the
    /// text of an object id (and under `Insert`, an entry without an id
    /// always gets one).
    pub open spec fn well_formed(&self) -> bool {
        &&& self.next <= self.entries@.len()
        &&& self.saved@.len() == self.next
        &&& self.stage != Stage::Ready ==> self.next < self.entries@.len()
        &&& (self.stage == Stage::Finding || self.stage == Stage::Updating) ==> !(self.rule
            == BlankIdRule::Insert && self.entries@[self.next as int]@.id.len() == 0)
        &&& forall|i: int|
            0 <= i < self.next ==> {
                let e = #[trigger] self.entries@[i]@;
                let s = self.saved@[i]@;
                &&& keeps_fields(e, s)
                &&& s.id == e.id || is_object_id_text(s.id)
                &&& (self.rule == BlankIdRule::Insert && e.id.len() == 0) ==> is_object_id_text(
                    s.id,
                )
            }
    }

    /// The session expects this answer: none before anything was asked,
    /// else the answer to the request it sent.
    pub open spec fn expects(&self, reply: Option<StoreReply>) -> bool {
        match self.stage {
            Stage::Ready => reply is None,
            Stage::Finding => reply matches Some(StoreReply::Found(_)),
            Stage::Updating => reply matches Some(StoreReply::Updated),
            Stage::Inserting => reply matches Some(StoreReply::Inserted(_)),
        }
    }

    /// `self` has just turned to the entry at `next`, and `step` is what
    /// that entry calls for.
    pub open spec fn begun(&self, step: SaveStep) -> bool {
        if self.next == self.entries@.len() {
            &&& self.stage == Stage::Ready
            &&& step matches SaveStep::Done(v) && v@ == self.saved@
        } else {
            let e = self.entries@[self.next as int];
            if e._id@.len() == 0 && self.rule == BlankIdRule::Insert {
                &&& self.stage == Stage::Inserting
                &&& step matches SaveStep::Request(StoreRequest::Insert(x)) && x == e
            } else if e._id@.len() == 0 && self.rule == BlankIdRule::FindAll {
                &&& self.stage == Stage::Finding
                &&& step matches SaveStep::Request(StoreRequest::FindAll)
            } else if is_object_id_text(e._id@) {
                &&& self.stage == Stage::Finding
                &&& step matches SaveStep::Request(StoreRequest::FindById(b)) && b@
                    == object_id_bytes_of(e._id@)
            } else {
                &&& self.stage == Stage::Ready
                &&& step matches SaveStep::InvalidId
            }
        }
    }

    /// A session that will save `entries`, treating entries without an id
    /// as `rule` says.
    pub fn new(entries: Vec<Entry>, rule: BlankIdRule) -> (r: SaveSession)
        ensures
            r.entries == entries,
            r.rule == rule,
            r.next == 0,
            r.saved@.len() == 0,
            r.stage == Stage::Ready,
            r.well_formed(),
    {
        SaveSession { entries, rule, next: 0, saved: Vec::new(), stage: Stage::Ready }
    }

    /// Whether the session expects this answer (see `expects`).
    pub fn accepts(&self, reply: &Option<StoreReply>) -> (b: bool)
        ensures
            b == self.expects(*reply),
    {
        match (self.stage, reply) {
            (Stage::Ready, None) => true,
            (Stage::Finding, Some(StoreReply::Found(_))) => true,
            (Stage::Updating, Some(StoreReply::Updated)) => true,
            (Stage::Inserting, Some(StoreReply::Inserted(_))) => true,
            _ => false,
        }
    }

    /// Turns to the entry at `next`.
    fn begin(&mut self) -> (step: SaveStep)
        requires
            old(self).well_formed(),
            old(self).stage == Stage::Ready,
        ensures
            final(self).entries == old(self).entries,
            final(self).rule == old(self).rule,
            final(self).next == old(self).next,
            final(self).saved == old(self).saved,
            final(self).well_formed(),
            final(self).begun(step),
    {
        if self.next == self.entries.len() {
            return SaveStep::Done(copy_entries(&self.saved));
        }
        let e = &self.entries[self.next];
        if e._id.as_str().is_empty() && self.rule == BlankIdRule::Insert {
            self.stage = Stage::Inserting;
            SaveStep::Request(StoreRequest::Insert(e.clone()))
        } else if e._id.as_str().is_empty() && self.rule == BlankIdRule::FindAll {
            self.stage = Stage::Finding;
            SaveStep::Request(StoreRequest::FindAll)
        } else {
            match parse_object_id(e._id.as_str()) {
                Some(id) => {
                    self.stage = Stage::Finding;
                    SaveStep::Request(StoreRequest::FindById(id))
                },
                None => SaveStep::InvalidId,
            }
        }
    }

    /// Records `saved` as the saved form of the entry at `next`, and turns
    /// to the entry after it.
    fn record(&mut self, saved: Entry) -> (step: SaveStep)
        requires
            old(self).well_formed(),
            old(self).stage != Stage::Ready,
            keeps_fields(old(self).entries@[old(self).next as int]@, saved@),
            saved@.id == old(self).entries@[old(self).next as int]@.id || is_object_id_text(
                saved@.id,
            ),
            (old(self).rule == BlankIdRule::Insert && old(
                self,
            ).entries@[old(self).next as int]@.id.len() == 0) ==> is_object_id_text(saved@.id),
        ensures
            final(self).entries == old(self).entries,
            final(self).rule == old(self).rule,
            final(self).next == old(self).next + 1,
            final(self).saved@ == old(self).saved@.push(saved),
            final(self).well_formed(),
            final(self).begun(step),
    {
        let count = self.entries.len();
        assert(self.next < count);
        self.saved.push(saved);
        self.next = self.next + 1;
        self.stage = Stage::Ready;
        assert(self.well_formed()) by {
            assert forall|i: int| 0 <= i < self.next implies #[trigger] self.saved@[i] == if i
                < old(self).next {
                old(self).saved@[i]
            } else {
                saved
            } by {}
        }
        self.begin()
    }

    /// Takes the store's answer to the last request (none to start with)
    /// and says what to do next.
    pub fn step(&mut self, reply: Option<StoreReply>) -> (step: SaveStep)
        requires
            old(self).well_formed(),
            old(self).expects(reply),
        ensures
            final(self).entries == old(self).entries,
            final(self).rule == old(self).rule,
            final(self).well_formed(),
            ({
                let e = old(self).entries@[old(self).next as int];
                match reply {
                    None => {
                        &&& final(self).next == old(self).next
                        &&& final(self).saved == old(self).saved
                        &&& final(self).begun(step)
                    },
                    Some(StoreReply::Found(n)) => {
                        &&& final(self).next == old(self).next
                        &&& final(self).saved == old(self).saved
                        &&& if n == 1 {
                            &&& final(self).stage == Stage::Updating
                            &&& step matches SaveStep::Request(StoreRequest::UpdateFound(x))
                                && x == e
                        } else {
                            &&& final(self).stage == Stage::Inserting
                            &&& step matches SaveStep::Request(StoreRequest::Insert(x)) && x == e
                        }
                    },
                    Some(StoreReply::Updated) => {
                        &&& final(self).next == old(self).next + 1
                        &&& final(self).saved@ == old(self).saved@.push(e)
                        &&& final(self).begun(step)
                    },
                    Some(StoreReply::Inserted(id)) => {
                        &&& final(self).next == old(self).next + 1
                        &&& final(self).saved@.len() == old(self).saved@.len() + 1
                        &&& final(self).saved@.drop_last() == old(self).saved@
                        &&& final(self).saved@.last()@ == (EntryView {
                            id: object_id_text_of(id@),
                            ..e@
                        })
                        &&& final(self).begun(step)
                    },
                }
            }),
    {
        match reply {
            None => self.begin(),
            Some(StoreReply::Found(n)) => {
                let e = self.entries[self.next].clone();
                if n == 1 {
                    self.stage = Stage::Updating;
                    SaveStep::Request(StoreRequest::UpdateFound(e))
                } else {
                    self.stage = Stage::Inserting;
                    SaveStep::Request(StoreRequest::Insert(e))
                }
            },
            Some(StoreReply::Updated) => {
                let e = self.entries[self.next].clone();
                self.record(e)
            },
            Some(StoreReply::Inserted(id)) => {
                let e = self.entries[self.next].clone();
                let saved = with_new_id(e, id);
                proof {
                    crate::object_id::law_object_id_round_trip(id@);
                }
                let step = self.record(saved);
                assert(self.saved@.drop_last() =~= old(self).saved@);
                step
            },
        }
    }
}

} // verus!
