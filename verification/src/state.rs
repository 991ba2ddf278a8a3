//! The client's list state: the entries, which of them are shown, and the
//! text fields. Every operation that takes an index counts among the shown
//! entries only, as the list on screen does.

use vstd::prelude::*;
use crate::models::{Entry, EntryView, entry_views};

verus! {

/// Which entries the list shows.
#[derive(Clone, Copy, Debug, PartialEq, Eq, Structural)]
pub enum Filter {
    All,
    Active,
    Completed,
}

impl Filter {
    /// The filter shows this entry.
    pub open spec fn admits(self, e: EntryView) -> bool {
        match self {
            Filter::All => true,
            Filter::Active => !e.completed,
            Filter::Completed => e.completed,
        }
    }

    /// Whether the filter shows `entry`.
    pub fn fit(&self, entry: &Entry) -> (b: bool)
        ensures
            b == self.admits(entry@),
    {
        match *self {
            Filter::All => true,
            Filter::Active => !entry.completed,
            Filter::Completed => entry.completed,
        }
    }
}

/// How many entries of `s` the filter shows.
pub open spec fn count_fit(s: Seq<EntryView>, f: Filter) -> nat
    decreases s.len(),
{
    if s.len() == 0 {
        0
    } else {
        count_fit(s.drop_last(), f) + if f.admits(s.last()) {
            1nat
        } else {
            0nat
        }
    }
}

/// The entries of `s` that the filter shows, in their order.
pub open spec fn fitting(s: Seq<EntryView>, f: Filter) -> Seq<EntryView>
    decreases s.len(),
{
    if s.len() == 0 {
        Seq::empty()
    } else if f.admits(s.last()) {
        fitting(s.drop_last(), f).push(s.last())
    } else {
        fitting(s.drop_last(), f)
    }
}

/// Position `p` of `s` holds the `k`-th shown entry (counting from 0).
pub open spec fn is_nth_shown(s: Seq<EntryView>, f: Filter, k: int, p: int) -> bool {
    &&& 0 <= p < s.len()
    &&& f.admits(s[p])
    &&& count_fit(s.take(p), f) == k
}

/// The position in `s` of the `k`-th shown entry.
pub open spec fn shown_position(s: Seq<EntryView>, f: Filter, k: int) -> int {
    choose|p: int| is_nth_shown(s, f, k, p)
}

/// The filter shows at least one entry of `s`.
pub open spec fn shows_any(s: Seq<EntryView>, f: Filter) -> bool {
    exists|i: int| 0 <= i < s.len() && f.admits(s[i])
}

/// The filter shows some entry, and every shown entry is completed.
pub open spec fn all_shown_completed(s: Seq<EntryView>, f: Filter) -> bool {
    &&& shows_any(s, f)
    &&& forall|i: int| 0 <= i < s.len() && f.admits(s[i]) ==> s[i].completed
}

pub open spec fn with_completed(e: EntryView, value: bool) -> EntryView {
    EntryView { completed: value, ..e }
}

pub open spec fn with_editing(e: EntryView, value: bool) -> EntryView {
    EntryView { editing: value, ..e }
}

/// Every shown entry of `s` marked completed (or not) as `value` says.
pub open spec fn all_shown_set(s: Seq<EntryView>, f: Filter, value: bool) -> Seq<EntryView> {
    Seq::new(
        s.len(),
        |i: int|
            if f.admits(s[i]) {
                with_completed(s[i], value)
            } else {
                s[i]
            },
    )
}

/// `s` with the `k`-th shown entry's completion flipped.
pub open spec fn toggled(s: Seq<EntryView>, f: Filter, k: int) -> Seq<EntryView> {
    let p = shown_position(s, f, k);
    s.update(p, with_completed(s[p], !s[p].completed))
}

/// `s` with the `k`-th shown entry's editing flag flipped.
pub open spec fn edit_toggled(s: Seq<EntryView>, f: Filter, k: int) -> Seq<EntryView> {
    let p = shown_position(s, f, k);
    s.update(p, with_editing(s[p], !s[p].editing))
}

/// `s` with no entry being edited.
pub open spec fn edits_cleared(s: Seq<EntryView>) -> Seq<EntryView> {
    Seq::new(s.len(), |i: int| with_editing(s[i], false))
}

/// `s` without its `k`-th shown entry.
pub open spec fn removed(s: Seq<EntryView>, f: Filter, k: int) -> Seq<EntryView> {
    s.remove(shown_position(s, f, k))
}

/// `s` after an edit of its `k`-th shown entry ends with the text `val`: a
/// non-empty text becomes the description and flips the editing flag; an
/// empty one removes the entry.
pub open spec fn edit_completed(s: Seq<EntryView>, f: Filter, k: int, val: Seq<char>) -> Seq<
    EntryView,
> {
    if val.len() > 0 {
        let p = shown_position(s, f, k);
        s.update(p, EntryView { description: val, editing: !s[p].editing, ..s[p] })
    } else {
        removed(s, f, k)
    }
}

pub proof fn lemma_count_fit_step(s: Seq<EntryView>, f: Filter, i: int)
    requires
        0 <= i < s.len(),
    ensures
        count_fit(s.take(i + 1), f) == count_fit(s.take(i), f) + if f.admits(s[i]) {
            1nat
        } else {
            0nat
        },
        fitting(s.take(i + 1), f) == if f.admits(s[i]) {
            fitting(s.take(i), f).push(s[i])
        } else {
            fitting(s.take(i), f)
        },
{
    assert(s.take(i + 1).drop_last() =~= s.take(i));
    assert(s.take(i + 1).last() == s[i]);
}

pub proof fn lemma_count_fit_bounded(s: Seq<EntryView>, f: Filter)
    ensures
        count_fit(s, f) <= s.len(),
        count_fit(s, f) == fitting(s, f).len(),
    decreases s.len(),
{
    if s.len() > 0 {
        lemma_count_fit_bounded(s.drop_last(), f);
    }
}

pub proof fn lemma_count_fit_monotone(s: Seq<EntryView>, f: Filter, i: int, j: int)
    requires
        0 <= i <= j <= s.len(),
    ensures
        count_fit(s.take(i), f) <= count_fit(s.take(j), f),
    decreases j - i,
{
    if i < j {
        lemma_count_fit_monotone(s, f, i, j - 1);
        lemma_count_fit_step(s, f, j - 1);
    }
}

/// The position of the `k`-th shown entry is unique.
pub proof fn lemma_nth_shown_unique(s: Seq<EntryView>, f: Filter, k: int, p: int, q: int)
    requires
        is_nth_shown(s, f, k, p),
        is_nth_shown(s, f, k, q),
    ensures
        p == q,
{
    if p < q {
        lemma_count_fit_step(s, f, p);
        lemma_count_fit_monotone(s, f, p + 1, q);
    } else if q < p {
        lemma_count_fit_step(s, f, q);
        lemma_count_fit_monotone(s, f, q + 1, p);
    }
}

pub proof fn lemma_shown_position(s: Seq<EntryView>, f: Filter, k: int, p: int)
    requires
        is_nth_shown(s, f, k, p),
    ensures
        shown_position(s, f, k) == p,
{
    lemma_nth_shown_unique(s, f, k, p, shown_position(s, f, k));
}

/// Ending edits changes no entry's visibility.
pub proof fn lemma_edits_cleared_count(s: Seq<EntryView>, f: Filter)
    ensures
        count_fit(edits_cleared(s), f) == count_fit(s, f),
        edits_cleared(s).len() == s.len(),
    decreases s.len(),
{
    if s.len() > 0 {
        assert(edits_cleared(s).drop_last() =~= edits_cleared(s.drop_last()));
        lemma_edits_cleared_count(s.drop_last(), f);
    }
}

/// The list state of the client.
pub struct State {
    pub entries: Vec<Entry>,
    pub filter: Filter,
    pub value: String,
    pub edit_value: String,
    pub request_counter: u64,
}

impl State {
    /// The entries of the state, as plain values.
    pub open spec fn entries_view(&self) -> Seq<EntryView> {
        entry_views(self.entries@)
    }

    /// The number of entries.
    pub fn total(&self) -> (n: usize)
        ensures
            n == self.entries@.len(),
    {
        self.entries.len()
    }

    /// The number of entries that `f` shows.
    pub fn count_shown(&self, f: Filter) -> (n: usize)
        ensures
            n == count_fit(self.entries_view(), f),
    {
        let ghost s = self.entries_view();
        let mut n: usize = 0;
        for i in 0..self.entries.len()
            invariant
                s == self.entries_view(),
                s.len() == self.entries@.len(),
                n == count_fit(s.take(i as int), f),
                n <= i,
        {
            proof {
                lemma_count_fit_step(s, f, i as int);
            }
            if f.fit(&self.entries[i]) {
                n = n + 1;
            }
        }
        assert(s.take(s.len() as int) =~= s);
        n
    }

    /// The number of completed entries.
    pub fn total_completed(&self) -> (n: usize)
        ensures
            n == count_fit(self.entries_view(), Filter::Completed),
    {
        self.count_shown(Filter::Completed)
    }

    /// Whether the current filter shows some entry and every shown entry is
    /// completed.
    pub fn is_all_completed(&self) -> (b: bool)
        ensures
            b == all_shown_completed(self.entries_view(), self.filter),
    {
        let ghost s = self.entries_view();
        let mut any_shown = false;
        let mut all_completed = true;
        for i in 0..self.entries.len()
            invariant
                s == self.entries_view(),
                s.len() == self.entries@.len(),
                any_shown == exists|j: int| 0 <= j < i && self.filter.admits(#[trigger] s[j]),
                all_completed == forall|j: int|
                    0 <= j < i && self.filter.admits(#[trigger] s[j]) ==> s[j].completed,
        {
            if self.filter.fit(&self.entries[i]) {
                any_shown = true;
                if !self.entries[i].completed {
                    all_completed = false;
                }
            }
            assert(s[i as int] == self.entries@[i as int]@);
        }
        any_shown && all_completed
    }

    /// Marks every shown entry completed (or not) as `value` says.
    pub fn toggle_all(&mut self, value: bool)
        ensures
            final(self).entries_view() == all_shown_set(old(self).entries_view(), old(self).filter, value),
            final(self).filter == old(self).filter,
            final(self).value == old(self).value,
            final(self).edit_value == old(self).edit_value,
            final(self).request_counter == old(self).request_counter,
    {
        let ghost s = self.entries_view();
        let ghost goal = all_shown_set(s, self.filter, value);
        let n = self.entries.len();
        for i in 0..n
            invariant
                n == self.entries@.len(),
                s.len() == n,
                goal == all_shown_set(s, self.filter, value),
                forall|j: int| 0 <= j < i ==> #[trigger] self.entries@[j]@ == goal[j],
                forall|j: int| i <= j < n ==> #[trigger] self.entries@[j]@ == s[j],
                self.filter == old(self).filter,
                self.value == old(self).value,
                self.edit_value == old(self).edit_value,
                self.request_counter == old(self).request_counter,
        {
            if self.filter.fit(&self.entries[i]) {
                self.entries[i].completed = value;
            }
        }
        assert(self.entries_view() =~= goal);
    }

    /// Drops the completed entries, keeping the order of the others.
    pub fn clear_completed(&mut self)
        ensures
            final(self).entries_view() == fitting(old(self).entries_view(), Filter::Active),
            final(self).filter == old(self).filter,
            final(self).value == old(self).value,
            final(self).edit_value == old(self).edit_value,
            final(self).request_counter == old(self).request_counter,
    {
        let ghost s = self.entries_view();
        let active = Filter::Active;
        let mut kept: Vec<Entry> = Vec::new();
        for i in 0..self.entries.len()
            invariant
                s == self.entries_view(),
                s.len() == self.entries@.len(),
                entry_views(kept@) == fitting(s.take(i as int), Filter::Active),
                active == Filter::Active,
        {
            proof {
                lemma_count_fit_step(s, Filter::Active, i as int);
            }
            if active.fit(&self.entries[i]) {
                kept.push(self.entries[i].clone());
            }
            assert(entry_views(kept@) =~= fitting(s.take(i + 1), Filter::Active));
        }
        assert(s.take(s.len() as int) =~= s);
        self.entries = kept;
    }

    /// The position among all entries of the `idx`-th shown entry.
    pub fn shown_index(&self, idx: usize) -> (p: usize)
        requires
            idx < count_fit(self.entries_view(), self.filter),
        ensures
            is_nth_shown(self.entries_view(), self.filter, idx as int, p as int),
            p == shown_position(self.entries_view(), self.filter, idx as int),
    {
        let ghost s = self.entries_view();
        let mut seen: usize = 0;
        let mut i: usize = 0;
        while i < self.entries.len()
            invariant
                s == self.entries_view(),
                s.len() == self.entries@.len(),
                i <= s.len(),
                seen == count_fit(s.take(i as int), self.filter),
                seen <= idx,
                idx < count_fit(s, self.filter),
            decreases s.len() - i,
        {
            proof {
                lemma_count_fit_step(s, self.filter, i as int);
            }
            if self.filter.fit(&self.entries[i]) {
                if seen == idx {
                    proof {
                        lemma_shown_position(s, self.filter, idx as int, i as int);
                    }
                    return i;
                }
                seen = seen + 1;
            }
            i = i + 1;
        }
        assert(s.take(s.len() as int) =~= s);
        assert(false);
        0
    }

    /// Flips the completion of the `idx`-th shown entry.
    pub fn toggle(&mut self, idx: usize)
        requires
            idx < count_fit(old(self).entries_view(), old(self).filter),
        ensures
            final(self).entries_view() == toggled(old(self).entries_view(), old(self).filter, idx as int),
            final(self).filter == old(self).filter,
            final(self).value == old(self).value,
            final(self).edit_value == old(self).edit_value,
            final(self).request_counter == old(self).request_counter,
    {
        let p = self.shown_index(idx);
        let flipped = !self.entries[p].completed;
        self.entries[p].completed = flipped;
        assert(self.entries_view() =~= toggled(old(self).entries_view(), old(self).filter, idx as int));
    }

    /// Flips the editing flag of the `idx`-th shown entry.
    pub fn toggle_edit(&mut self, idx: usize)
        requires
            idx < count_fit(old(self).entries_view(), old(self).filter),
        ensures
            final(self).entries_view() == edit_toggled(old(self).entries_view(), old(self).filter, idx as int),
            final(self).filter == old(self).filter,
            final(self).value == old(self).value,
            final(self).edit_value == old(self).edit_value,
            final(self).request_counter == old(self).request_counter,
    {
        let p = self.shown_index(idx);
        let flipped = !self.entries[p].editing;
        self.entries[p].editing = flipped;
        assert(self.entries_view() =~= edit_toggled(old(self).entries_view(), old(self).filter, idx as int));
    }

    /// Ends editing on every entry.
    pub fn clear_all_edit(&mut self)
        ensures
            final(self).entries_view() == edits_cleared(old(self).entries_view()),
            final(self).filter == old(self).filter,
            final(self).value == old(self).value,
            final(self).edit_value == old(self).edit_value,
            final(self).request_counter == old(self).request_counter,
    {
        let ghost s = self.entries_view();
        let n = self.entries.len();
        for i in 0..n
            invariant
                n == self.entries@.len(),
                s.len() == n,
                forall|j: int| 0 <= j < i ==> #[trigger] self.entries@[j]@ == with_editing(s[j], false),
                forall|j: int| i <= j < n ==> #[trigger] self.entries@[j]@ == s[j],
                self.filter == old(self).filter,
                self.value == old(self).value,
                self.edit_value == old(self).edit_value,
                self.request_counter == old(self).request_counter,
        {
            assert(self.entries@[i as int]@ == s[i as int]);
            self.entries[i].editing = false;
            assert(self.entries@[i as int]@ =~= with_editing(s[i as int], false));
        }
        assert(self.entries_view() =~= edits_cleared(s));
    }

    /// Ends the edit of the `idx`-th shown entry with the text `val`: a
    /// non-empty text becomes its description and flips its editing flag;
    /// an empty text removes the entry.
    pub fn complete_edit(&mut self, idx: usize, val: String)
        requires
            idx < count_fit(old(self).entries_view(), old(self).filter),
        ensures
            final(self).entries_view() == edit_completed(
                old(self).entries_view(),
                old(self).filter,
                idx as int,
                val@,
            ),
            final(self).filter == old(self).filter,
            final(self).value == old(self).value,
            final(self).edit_value == old(self).edit_value,
            final(self).request_counter == old(self).request_counter,
    {
        if !val.as_str().is_empty() {
            let p = self.shown_index(idx);
            let flipped = !self.entries[p].editing;
            self.entries[p].description = val;
            self.entries[p].editing = flipped;
            assert(self.entries_view() =~= edit_completed(
                old(self).entries_view(),
                old(self).filter,
                idx as int,
                val@,
            ));
        } else {
            self.remove(idx);
        }
    }

    /// Removes the `idx`-th shown entry.
    pub fn remove(&mut self, idx: usize)
        requires
            idx < count_fit(old(self).entries_view(), old(self).filter),
        ensures
            final(self).entries_view() == removed(old(self).entries_view(), old(self).filter, idx as int),
            final(self).filter == old(self).filter,
            final(self).value == old(self).value,
            final(self).edit_value == old(self).edit_value,
            final(self).request_counter == old(self).request_counter,
    {
        let p = self.shown_index(idx);
        self.entries.remove(p);
        assert(self.entries_view() =~= removed(old(self).entries_view(), old(self).filter, idx as int));
    }
}

} // verus!
