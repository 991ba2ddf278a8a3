//! The client's message handling: what each message does to the list state
//! and which effects (messages to send back, requests to start, lines to
//! print) the component performs afterwards.

use vstd::prelude::*;
use crate::models::{Entry, EntryView, TaskResponse, copy_entries, entry_views};
use crate::state::{
    Filter, State, all_shown_completed, all_shown_set, count_fit, edit_completed, edit_toggled,
    edits_cleared, fitting, lemma_edits_cleared_count, removed, toggled,
};
use crate::text::{trim, trimmed};

verus! {

/// What the component is asked to do.
#[derive(Debug)]
pub enum Msg {
    Add,
    Edit(usize),
    Update(String),
    UpdateEdit(String),
    Remove(usize),
    SetFilter(Filter),
    ToggleAll,
    ToggleEdit(usize),
    Toggle(usize),
    ClearCompleted,
    Focus,
    Nope,
    GetTasks,
    UpdateTasks,
    /// The answer to request `0`: the server's task list, or the text of
    /// the error that the request ended with.
    TasksReceived(u64, Result<TaskResponse, String>),
}

/// An effect that the component performs after handling a message.
#[derive(Debug)]
pub enum Action {
    /// Hand this message back to the component.
    Send(Msg),
    /// Print this line on standard output.
    Print(String),
    /// Give the keyboard focus to the edit field.
    FocusEditField,
    /// Fetch the entries from the server, under request id `0`.
    FetchTasks(u64),
    /// Store these entries on the server, under request id `0`.
    SaveTasks(u64, Vec<Entry>),
    /// Write this error on the browser console.
    ShowError(String),
}

/// The entry that a new todo text becomes.
pub open spec fn new_entry(description: Seq<char>) -> EntryView {
    EntryView { id: Seq::empty(), completed: false, description, editing: false }
}

/// A new todo is not completed, not being edited and has no id yet; its
/// description is the text it was made from.
pub proof fn law_new_entry_is_active(description: Seq<char>)
    ensures
        !new_entry(description).completed,
        !new_entry(description).editing,
        new_entry(description).id.len() == 0,
        new_entry(description).description == description,
{
}

/// `p` without the id `id`.
pub open spec fn without(p: Seq<u64>, id: u64) -> Seq<u64>
    decreases p.len(),
{
    if p.len() == 0 {
        p
    } else if p.last() == id {
        without(p.drop_last(), id)
    } else {
        without(p.drop_last(), id).push(p.last())
    }
}

proof fn lemma_without_step(p: Seq<u64>, id: u64, i: int)
    requires
        0 <= i < p.len(),
    ensures
        without(p.take(i + 1), id) == if p[i] == id {
            without(p.take(i), id)
        } else {
            without(p.take(i), id).push(p[i])
        },
{
    assert(p.take(i + 1).drop_last() =~= p.take(i));
}

/// Forgetting an answered request takes away that id and no other, and
/// keeps the pending ids distinct.
pub proof fn law_answer_clears_request(p: Seq<u64>, id: u64)
    ensures
        forall|x: u64| #[trigger] without(p, id).contains(x) <==> (p.contains(x) && x != id),
        p.no_duplicates() ==> without(p, id).no_duplicates(),
    decreases p.len(),
{
    if p.len() > 0 {
        let q = p.drop_last();
        law_answer_clears_request(q, id);
        assert forall|x: u64| #[trigger] p.contains(x) <==> (q.contains(x) || x == p.last()) by {
            if p.contains(x) {
                let j = choose|j: int| 0 <= j < p.len() && p[j] == x;
                if j < p.len() - 1 {
                    assert(q[j] == x);
                }
            }
            if q.contains(x) {
                let j = choose|j: int| 0 <= j < q.len() && q[j] == x;
                assert(p[j] == x);
            }
            if x == p.last() {
                assert(p[p.len() - 1] == x);
            }
        }
        let w = without(q, id);
        if p.last() != id {
            assert forall|x: u64| #[trigger] w.push(p.last()).contains(x) <==> (w.contains(x) || x
                == p.last()) by {
                if w.push(p.last()).contains(x) {
                    let j = choose|j: int| 0 <= j < w.len() + 1 && w.push(p.last())[j] == x;
                    if j < w.len() {
                        assert(w[j] == x);
                    }
                }
                if w.contains(x) {
                    let j = choose|j: int| 0 <= j < w.len() && w[j] == x;
                    assert(w.push(p.last())[j] == x);
                }
                if x == p.last() {
                    assert(w.push(p.last())[w.len() as int] == x);
                }
            }
            if p.no_duplicates() {
                assert(q.no_duplicates()) by {
                    assert forall|a: int, b: int|
                        0 <= a < q.len() && 0 <= b < q.len() && a != b implies q[a] != q[b] by {
                        assert(q[a] == p[a] && q[b] == p[b]);
                    }
                }
                assert(!q.contains(p.last())) by {
                    if q.contains(p.last()) {
                        let j = choose|j: int| 0 <= j < q.len() && q[j] == p.last();
                        assert(p[j] == p[p.len() - 1]);
                    }
                }
                assert(!w.contains(p.last()));
                let wp = w.push(p.last());
                assert forall|a: int, b: int|
                    0 <= a < wp.len() && 0 <= b < wp.len() && a != b implies wp[a] != wp[b] by {
                    if a < w.len() && b < w.len() {
                        assert(wp[a] == w[a] && wp[b] == w[b]);
                    } else if a < w.len() {
                        assert(wp[a] == w[a]);
                        assert(w.contains(w[a]));
                    } else {
                        assert(wp[b] == w[b]);
                        assert(w.contains(w[b]));
                    }
                }
            }
        } else {
            if p.no_duplicates() {
                assert forall|a: int, b: int|
                    0 <= a < q.len() && 0 <= b < q.len() && a != b implies q[a] != q[b] by {
                    assert(q[a] == p[a] && q[b] == p[b]);
                }
            }
        }
    }
}

/// In a well-formed model the next request id is not pending: every
/// request the client starts has an id of its own.
pub proof fn law_next_request_id_is_fresh(m: Model)
    requires
        m.well_formed(),
    ensures
        !m.pending_requests@.contains(m.state.request_counter),
{
}

/// The client component's state: the list state and the ids of the
/// requests that have been started and not yet answered.
pub struct Model {
    pub state: State,
    pub pending_requests: Vec<u64>,
}

impl Model {
    /// No request id is pending twice, and every pending id was handed out
    /// before (it is below the request counter).
    pub open spec fn well_formed(&self) -> bool {
        &&& self.pending_requests@.no_duplicates()
        &&& forall|i: int|
            0 <= i < self.pending_requests@.len() ==> #[trigger] self.pending_requests@[i]
                < self.state.request_counter
    }

    /// The message can be handled without an index out of range or an
    /// exhausted request counter.
    pub open spec fn handles(&self, msg: &Msg) -> bool {
        let shown = count_fit(self.state.entries_view(), self.state.filter);
        match *msg {
            Msg::Edit(idx) => idx < shown,
            Msg::Remove(idx) => idx < shown,
            Msg::Toggle(idx) => idx < shown,
            Msg::ToggleEdit(idx) => idx < self.state.entries@.len() && idx < shown,
            Msg::GetTasks => self.state.request_counter < u64::MAX,
            Msg::UpdateTasks => self.state.request_counter < u64::MAX,
            _ => true,
        }
    }

    /// Whether `update` can handle the message (see `handles`).
    pub fn can_handle(&self, msg: &Msg) -> (b: bool)
        ensures
            b == self.handles(msg),
    {
        match msg {
            Msg::Edit(idx) => *idx < self.state.count_shown(self.state.filter),
            Msg::Remove(idx) => *idx < self.state.count_shown(self.state.filter),
            Msg::Toggle(idx) => *idx < self.state.count_shown(self.state.filter),
            Msg::ToggleEdit(idx) => *idx < self.state.entries.len() && *idx
                < self.state.count_shown(self.state.filter),
            Msg::GetTasks => self.state.request_counter < u64::MAX,
            Msg::UpdateTasks => self.state.request_counter < u64::MAX,
            _ => true,
        }
    }

    /// The component as it starts: no entries, all shown, empty text
    /// fields, no request yet; its first effect is to fetch the tasks.
    pub fn create() -> (r: (Model, Vec<Action>))
        ensures
            r.0.state.entries@.len() == 0,
            r.0.state.filter == Filter::All,
            r.0.state.value@.len() == 0,
            r.0.state.edit_value@.len() == 0,
            r.0.state.request_counter == 0,
            r.0.pending_requests@.len() == 0,
            r.0.well_formed(),
            r.1@.len() == 1,
            r.1@[0] matches Action::Send(Msg::GetTasks),
    {
        let state = State {
            entries: Vec::new(),
            filter: Filter::All,
            value: String::new(),
            edit_value: String::new(),
            request_counter: 0,
        };
        let mut actions = Vec::new();
        actions.push(Action::Send(Msg::GetTasks));
        (Model { state, pending_requests: Vec::new() }, actions)
    }

    /// Hands out the next request id and records it as pending.
    fn start_request(&mut self) -> (id: u64)
        requires
            old(self).state.request_counter < u64::MAX,
        ensures
            id == old(self).state.request_counter,
            final(self).state.request_counter == id + 1,
            final(self).pending_requests@ == old(self).pending_requests@.push(id),
            final(self).state.entries == old(self).state.entries,
            final(self).state.filter == old(self).state.filter,
            final(self).state.value == old(self).state.value,
            final(self).state.edit_value == old(self).state.edit_value,
            old(self).well_formed() ==> final(self).well_formed(),
    {
        let id = self.state.request_counter;
        self.state.request_counter = id + 1;
        self.pending_requests.push(id);
        proof {
            if old(self).well_formed() {
                let p = self.pending_requests@;
                let q = old(self).pending_requests@;
                assert forall|a: int, b: int|
                    0 <= a < p.len() && 0 <= b < p.len() && a != b implies p[a] != p[b] by {
                    if a < q.len() {
                        assert(p[a] == q[a]);
                    }
                    if b < q.len() {
                        assert(p[b] == q[b]);
                    }
                }
            }
        }
        id
    }

    /// Forgets the pending request `id`.
    fn finish_request(&mut self, id: u64)
        ensures
            final(self).pending_requests@ == without(old(self).pending_requests@, id),
            final(self).state == old(self).state,
            old(self).well_formed() ==> final(self).well_formed(),
    {
        let ghost p = self.pending_requests@;
        let mut kept: Vec<u64> = Vec::new();
        for i in 0..self.pending_requests.len()
            invariant
                p == self.pending_requests@,
                kept@ == without(p.take(i as int), id),
        {
            proof {
                lemma_without_step(p, id, i as int);
            }
            let x = self.pending_requests[i];
            if x != id {
                kept.push(x);
            }
        }
        assert(p.take(p.len() as int) =~= p);
        self.pending_requests = kept;
        proof {
            law_answer_clears_request(p, id);
            if old(self).well_formed() {
                let w = self.pending_requests@;
                assert forall|i: int| 0 <= i < w.len() implies #[trigger] w[i]
                    < self.state.request_counter by {
                    assert(w.contains(w[i]));
                    assert(p.contains(w[i]));
                    let j = choose|j: int| 0 <= j < p.len() && p[j] == w[i];
                }
            }
        }
    }

    /// Handles one message: changes the state as the message says and
    /// returns whether to render again (always) and the effects to perform.
    pub fn update(&mut self, msg: Msg) -> (r: (bool, Vec<Action>))
        requires
            old(self).handles(&msg),
        ensures
            r.0,
            old(self).well_formed() ==> final(self).well_formed(),
            ({
                let s0 = old(self).state;
                let s1 = final(self).state;
                let unchanged_fields = s1.filter == s0.filter && s1.value == s0.value
                    && s1.edit_value == s0.edit_value && s1.request_counter
                    == s0.request_counter;
                let no_request = final(self).pending_requests == old(self).pending_requests;
                let sends_save = r.1@.len() == 1 && r.1@[0] matches Action::Send(Msg::UpdateTasks);
                match msg {
                    Msg::Add => {
                        let t = trimmed(s0.value@);
                        &&& s1.entries_view() == if t.len() > 0 {
                            s0.entries_view().push(new_entry(t))
                        } else {
                            s0.entries_view()
                        }
                        &&& s1.value@.len() == 0
                        &&& s1.filter == s0.filter && s1.edit_value == s0.edit_value
                        &&& s1.request_counter == s0.request_counter
                        &&& no_request && sends_save
                    },
                    Msg::Edit(idx) => {
                        &&& s1.entries_view() == edit_completed(
                            s0.entries_view(),
                            s0.filter,
                            idx as int,
                            trimmed(s0.edit_value@),
                        )
                        &&& s1.edit_value@.len() == 0
                        &&& s1.filter == s0.filter && s1.value == s0.value
                        &&& s1.request_counter == s0.request_counter
                        &&& no_request && sends_save
                    },
                    Msg::Update(val) => {
                        &&& s1.value == val
                        &&& s1.entries == s0.entries && s1.filter == s0.filter
                        &&& s1.edit_value == s0.edit_value
                        &&& s1.request_counter == s0.request_counter
                        &&& no_request
                        &&& r.1@.len() == 1
                        &&& r.1@[0] matches Action::Print(line) && line@ == "Input: "@ + val@
                    },
                    Msg::UpdateEdit(val) => {
                        &&& s1.edit_value == val
                        &&& s1.entries == s0.entries && s1.filter == s0.filter
                        &&& s1.value == s0.value
                        &&& s1.request_counter == s0.request_counter
                        &&& no_request
                        &&& r.1@.len() == 1
                        &&& r.1@[0] matches Action::Print(line) && line@ == "Input: "@ + val@
                    },
                    Msg::Remove(idx) => {
                        &&& s1.entries_view() == removed(s0.entries_view(), s0.filter, idx as int)
                        &&& unchanged_fields && no_request && sends_save
                    },
                    Msg::SetFilter(f) => {
                        &&& s1.filter == f
                        &&& s1.entries == s0.entries && s1.value == s0.value
                        &&& s1.edit_value == s0.edit_value
                        &&& s1.request_counter == s0.request_counter
                        &&& no_request && r.1@.len() == 0
                    },
                    Msg::ToggleEdit(idx) => {
                        &&& s1.edit_value@ == s0.entries@[idx as int].description@
                        &&& s1.entries_view() == edit_toggled(
                            edits_cleared(s0.entries_view()),
                            s0.filter,
                            idx as int,
                        )
                        &&& s1.filter == s0.filter && s1.value == s0.value
                        &&& s1.request_counter == s0.request_counter
                        &&& no_request && r.1@.len() == 0
                    },
                    Msg::ToggleAll => {
                        &&& s1.entries_view() == all_shown_set(
                            s0.entries_view(),
                            s0.filter,
                            !all_shown_completed(s0.entries_view(), s0.filter),
                        )
                        &&& unchanged_fields && no_request && sends_save
                    },
                    Msg::Toggle(idx) => {
                        &&& s1.entries_view() == toggled(s0.entries_view(), s0.filter, idx as int)
                        &&& unchanged_fields && no_request && sends_save
                    },
                    Msg::ClearCompleted => {
                        &&& s1.entries_view() == fitting(s0.entries_view(), Filter::Active)
                        &&& unchanged_fields && no_request && sends_save
                    },
                    Msg::Focus => {
                        &&& s1 == s0 && no_request
                        &&& r.1@.len() == 1 && r.1@[0] matches Action::FocusEditField
                    },
                    Msg::Nope => s1 == s0 && no_request && r.1@.len() == 0,
                    Msg::GetTasks => {
                        let id = s0.request_counter;
                        &&& s1.request_counter == id + 1
                        &&& final(self).pending_requests@ == old(self).pending_requests@.push(id)
                        &&& s1.entries == s0.entries && s1.filter == s0.filter
                        &&& s1.value == s0.value && s1.edit_value == s0.edit_value
                        &&& r.1@.len() == 1 && r.1@[0] == Action::FetchTasks(id)
                    },
                    Msg::UpdateTasks => {
                        let id = s0.request_counter;
                        &&& s1.request_counter == id + 1
                        &&& final(self).pending_requests@ == old(self).pending_requests@.push(id)
                        &&& s1.entries == s0.entries && s1.filter == s0.filter
                        &&& s1.value == s0.value && s1.edit_value == s0.edit_value
                        &&& r.1@.len() == 1
                        &&& r.1@[0] matches Action::SaveTasks(rid, tasks) && rid == id && tasks@
                            == s0.entries@
                    },
                    Msg::TasksReceived(id, data) => {
                        &&& final(self).pending_requests@ == without(
                            old(self).pending_requests@,
                            id,
                        )
                        &&& s1.filter == s0.filter && s1.value == s0.value
                        &&& s1.edit_value == s0.edit_value
                        &&& s1.request_counter == s0.request_counter
                        &&& match data {
                            Ok(response) => s1.entries@ == response.tasks@ && r.1@.len() == 0,
                            Err(e) => {
                                &&& s1.entries == s0.entries
                                &&& r.1@.len() == 1
                                &&& r.1@[0] == Action::ShowError(e)
                            },
                        }
                    },
                }
            }),
    {
        let mut actions: Vec<Action> = Vec::new();
        match msg {
            Msg::Add => {
                let description = trim(self.state.value.as_str());
                if !description.is_empty() {
                    let entry = Entry {
                        _id: String::new(),
                        description: description.to_string(),
                        completed: false,
                        editing: false,
                    };
                    self.state.entries.push(entry);
                    assert(self.state.entries_view() =~= old(self).state.entries_view().push(
                        new_entry(trimmed(old(self).state.value@)),
                    ));
                } else {
                    assert(self.state.entries_view() =~= old(self).state.entries_view());
                }
                self.state.value = String::new();
                actions.push(Action::Send(Msg::UpdateTasks));
            },
            Msg::Edit(idx) => {
                let edit_value = trim(self.state.edit_value.as_str()).to_string();
                self.state.complete_edit(idx, edit_value);
                self.state.edit_value = String::new();
                actions.push(Action::Send(Msg::UpdateTasks));
            },
            Msg::Update(val) => {
                let mut line = "Input: ".to_string();
                line.append(val.as_str());
                actions.push(Action::Print(line));
                self.state.value = val;
            },
            Msg::UpdateEdit(val) => {
                let mut line = "Input: ".to_string();
                line.append(val.as_str());
                actions.push(Action::Print(line));
                self.state.edit_value = val;
            },
            Msg::Remove(idx) => {
                self.state.remove(idx);
                actions.push(Action::Send(Msg::UpdateTasks));
            },
            Msg::SetFilter(filter) => {
                self.state.filter = filter;
            },
            Msg::ToggleEdit(idx) => {
                self.state.edit_value = self.state.entries[idx].description.clone();
                self.state.clear_all_edit();
                proof {
                    lemma_edits_cleared_count(old(self).state.entries_view(), self.state.filter);
                }
                self.state.toggle_edit(idx);
            },
            Msg::ToggleAll => {
                let status = !self.state.is_all_completed();
                self.state.toggle_all(status);
                actions.push(Action::Send(Msg::UpdateTasks));
            },
            Msg::Toggle(idx) => {
                self.state.toggle(idx);
                actions.push(Action::Send(Msg::UpdateTasks));
            },
            Msg::ClearCompleted => {
                self.state.clear_completed();
                actions.push(Action::Send(Msg::UpdateTasks));
            },
            Msg::Focus => {
                actions.push(Action::FocusEditField);
            },
            Msg::Nope => {},
            Msg::GetTasks => {
                let id = self.start_request();
                actions.push(Action::FetchTasks(id));
            },
            Msg::TasksReceived(id, data) => {
                self.finish_request(id);
                match data {
                    Ok(response) => {
                        self.state.entries = response.tasks;
                    },
                    Err(e) => {
                        actions.push(Action::ShowError(e));
                    },
                }
            },
            Msg::UpdateTasks => {
                let tasks = copy_entries(&self.state.entries);
                let id = self.start_request();
                actions.push(Action::SaveTasks(id, tasks));
            },
        }
        (true, actions)
    }
}

} // verus!
