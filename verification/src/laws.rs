//! Properties of the list operations and of saving that hold across calls.

use vstd::prelude::*;
use crate::models::EntryView;
use crate::state::{
    Filter, all_shown_completed, all_shown_set, count_fit, edit_completed, edit_toggled,
    edits_cleared, fitting, is_nth_shown, lemma_nth_shown_unique,
    lemma_count_fit_bounded, lemma_shown_position, removed, shown_position, toggled,
    with_completed,
};
use crate::store::{BlankIdRule, SaveSession, SaveStep, StoreRequest, Stage, keeps_fields};
use crate::object_id::{is_object_id_text, object_id_bytes_of};

verus! {

proof fn lemma_count_all(s: Seq<EntryView>)
    ensures
        count_fit(s, Filter::All) == s.len(),
    decreases s.len(),
{
    if s.len() > 0 {
        lemma_count_all(s.drop_last());
    }
}

proof fn lemma_count_concat(a: Seq<EntryView>, b: Seq<EntryView>, f: Filter)
    ensures
        count_fit(a + b, f) == count_fit(a, f) + count_fit(b, f),
    decreases b.len(),
{
    if b.len() > 0 {
        assert((a + b).drop_last() =~= a + b.drop_last());
        assert((a + b).last() == b.last());
        lemma_count_concat(a, b.drop_last(), f);
    } else {
        assert(a + b =~= a);
    }
}

/// Every entry is either active or completed: the entries that `Active`
/// shows and those that `Completed` shows add up to all of them, and `All`
/// shows every entry.
pub proof fn law_filters_partition(s: Seq<EntryView>)
    ensures
        count_fit(s, Filter::Active) + count_fit(s, Filter::Completed) == s.len(),
        count_fit(s, Filter::All) == s.len(),
    decreases s.len(),
{
    lemma_count_all(s);
    if s.len() > 0 {
        law_filters_partition(s.drop_last());
    }
}

proof fn lemma_fitting_admitted(s: Seq<EntryView>, f: Filter)
    ensures
        forall|i: int| 0 <= i < fitting(s, f).len() ==> f.admits(#[trigger] fitting(s, f)[i]),
        fitting(fitting(s, f), f) == fitting(s, f),
    decreases s.len(),
{
    if s.len() > 0 {
        lemma_fitting_admitted(s.drop_last(), f);
        let r = fitting(s.drop_last(), f);
        if f.admits(s.last()) {
            let rp = r.push(s.last());
            assert(rp.drop_last() =~= r);
            assert forall|i: int| 0 <= i < rp.len() implies f.admits(#[trigger] rp[i]) by {
                if i < r.len() {
                    assert(rp[i] == r[i]);
                }
            }
        }
    }
}

proof fn lemma_count_none_completed(s: Seq<EntryView>)
    requires
        forall|i: int| 0 <= i < s.len() ==> !(#[trigger] s[i]).completed,
    ensures
        count_fit(s, Filter::Completed) == 0,
    decreases s.len(),
{
    if s.len() > 0 {
        assert forall|i: int| 0 <= i < s.drop_last().len() implies !(
        #[trigger] s.drop_last()[i]).completed by {
            assert(s.drop_last()[i] == s[i]);
        }
        lemma_count_none_completed(s.drop_last());
        assert(!s[s.len() - 1].completed);
    }
}

/// Clearing the completed entries keeps exactly the active ones: no
/// completed entry is left, as many remain as were active, and clearing
/// again changes nothing.
pub proof fn law_clear_completed(s: Seq<EntryView>)
    ensures
        count_fit(fitting(s, Filter::Active), Filter::Completed) == 0,
        fitting(s, Filter::Active).len() == s.len() - count_fit(s, Filter::Completed),
        fitting(fitting(s, Filter::Active), Filter::Active) == fitting(s, Filter::Active),
{
    lemma_fitting_admitted(s, Filter::Active);
    lemma_count_none_completed(fitting(s, Filter::Active));
    lemma_count_fit_bounded(s, Filter::Active);
    law_filters_partition(s);
}

/// With every entry shown, toggling the same entry twice gives back the
/// list as it was.
pub proof fn law_toggle_twice_restores(s: Seq<EntryView>, k: int)
    requires
        0 <= k < s.len(),
    ensures
        toggled(toggled(s, Filter::All, k), Filter::All, k) == s,
{
    lemma_count_all(s.take(k));
    lemma_shown_position(s, Filter::All, k, k);
    let t = toggled(s, Filter::All, k);
    assert(t.take(k) =~= s.take(k));
    assert(is_nth_shown(t, Filter::All, k, k));
    lemma_shown_position(t, Filter::All, k, k);
    assert(with_completed(t[k], !t[k].completed) == s[k]);
    assert(toggled(t, Filter::All, k) =~= s);
}

/// With every entry shown and at least one entry, "toggle all" flips
/// whether all entries are completed.
pub proof fn law_toggle_all_flips(s: Seq<EntryView>)
    requires
        s.len() > 0,
    ensures
        all_shown_completed(
            all_shown_set(s, Filter::All, !all_shown_completed(s, Filter::All)),
            Filter::All,
        ) == !all_shown_completed(s, Filter::All),
{
    let before = all_shown_completed(s, Filter::All);
    let t = all_shown_set(s, Filter::All, !before);
    assert(Filter::All.admits(s[0]));
    assert(Filter::All.admits(t[0]));
    if before {
        assert(!t[0].completed);
    } else {
        assert forall|i: int| 0 <= i < t.len() && Filter::All.admits(t[i]) implies t[i].completed by {}
    }
}

/// Removing a shown entry takes exactly that one entry away: the list and
/// the shown entries each lose one.
pub proof fn law_remove_takes_one(s: Seq<EntryView>, f: Filter, k: int)
    requires
        0 <= k < count_fit(s, f),
    ensures
        removed(s, f, k).len() == s.len() - 1,
        count_fit(removed(s, f, k), f) == count_fit(s, f) - 1,
{
    let p = shown_position(s, f, k);
    assert(is_nth_shown(s, f, k, p)) by {
        crate::state::lemma_count_fit_bounded(s, f);
        let n = nth_exists(s, f, k);
        lemma_shown_position(s, f, k, n);
    }
    let a = s.take(p);
    let b = s.skip(p + 1);
    assert(s =~= a + seq![s[p]] + b);
    assert(s.remove(p) =~= a + b);
    lemma_count_concat(a + seq![s[p]], b, f);
    lemma_count_concat(a, seq![s[p]], f);
    lemma_count_concat(a, b, f);
    assert(seq![s[p]].drop_last() =~= Seq::<EntryView>::empty());
    assert(seq![s[p]].last() == s[p]);
    assert(f.admits(s[p]));
    assert(count_fit(seq![s[p]].drop_last(), f) == 0);
    assert(count_fit(seq![s[p]], f) == 1);
    assert(count_fit(s, f) == count_fit(a + seq![s[p]] + b, f));
}

proof fn nth_exists(s: Seq<EntryView>, f: Filter, k: int) -> (p: int)
    requires
        0 <= k < count_fit(s, f),
    ensures
        is_nth_shown(s, f, k, p),
    decreases s.len(),
{
    let q = s.drop_last();
    if k < count_fit(q, f) {
        let p = nth_exists(q, f, k);
        assert(q.take(p) =~= s.take(p));
        p
    } else {
        let p = s.len() - 1;
        assert(s.take(p) =~= q);
        p
    }
}

proof fn lemma_all_counted(s: Seq<EntryView>)
    ensures
        count_fit(s, Filter::Completed) == s.len() <==> forall|i: int|
            0 <= i < s.len() ==> (#[trigger] s[i]).completed,
    decreases s.len(),
{
    lemma_count_fit_bounded(s, Filter::Completed);
    if s.len() > 0 {
        let q = s.drop_last();
        lemma_all_counted(q);
        lemma_count_fit_bounded(q, Filter::Completed);
        if forall|i: int| 0 <= i < s.len() ==> (#[trigger] s[i]).completed {
            assert forall|i: int| 0 <= i < q.len() implies (#[trigger] q[i]).completed by {
                assert(q[i] == s[i]);
            }
            assert(s[s.len() - 1].completed);
        }
        if count_fit(s, Filter::Completed) == s.len() {
            assert(s.last().completed);
            assert forall|i: int| 0 <= i < s.len() implies (#[trigger] s[i]).completed by {
                if i < q.len() {
                    assert(q[i] == s[i]);
                }
            }
        }
    }
}

/// The "toggle all" box is checked, with every entry shown, exactly when
/// there are entries and the completed count equals the total.
pub proof fn law_all_completed_iff_counts(s: Seq<EntryView>)
    ensures
        all_shown_completed(s, Filter::All) <==> (s.len() > 0 && count_fit(s, Filter::Completed)
            == s.len()),
{
    lemma_all_counted(s);
    if s.len() > 0 {
        assert(Filter::All.admits(s[0]));
    }
}

/// A finished save gives one saved entry per entry, in order; each keeps
/// its entry's `completed`, `description` and `editing`; its id is the
/// entry's own or the text of an object id; and when entries without an id
/// are inserted, every one of them comes back with an object id.
pub proof fn law_saving_keeps_entries(session: SaveSession)
    requires
        session.well_formed(),
        session.next == session.entries@.len(),
    ensures
        session.saved@.len() == session.entries@.len(),
        forall|i: int|
            0 <= i < session.entries@.len() ==> {
                let e = #[trigger] session.entries@[i]@;
                let s = session.saved@[i]@;
                &&& keeps_fields(e, s)
                &&& s.id == e.id || is_object_id_text(s.id)
                &&& (session.rule == BlankIdRule::Insert && e.id.len() == 0) ==> is_object_id_text(
                    s.id,
                )
            },
{
}

/// The position `j` of `s` holds the `k`-th entry that `f` shows: `f`
/// shows it, and exactly `k` shown entries come before it.
pub open spec fn holds_kth_shown(s: Seq<EntryView>, f: Filter, k: int, j: int) -> bool {
    &&& f.admits(s[j])
    &&& count_fit(s.take(j), f) == k
}

/// When more than `k` entries are shown, the `k`-th shown entry exists,
/// it is where `shown_position` points; no other position holds it.
proof fn lemma_kth_position(s: Seq<EntryView>, f: Filter, k: int) -> (p: int)
    requires
        0 <= k < count_fit(s, f),
    ensures
        0 <= p < s.len(),
        p == shown_position(s, f, k),
        holds_kth_shown(s, f, k, p),
        forall|j: int| 0 <= j < s.len() && holds_kth_shown(s, f, k, j) ==> j == p,
{
    let p = nth_exists(s, f, k);
    lemma_shown_position(s, f, k, p);
    assert forall|j: int| 0 <= j < s.len() && holds_kth_shown(s, f, k, j) implies j == p by {
        lemma_nth_shown_unique(s, f, k, p, j);
    }
    p
}

/// Toggling the `k`-th shown entry flips the completion of that entry and
/// of no other: the entry the filter shows with `k` shown entries before it
/// changes its `completed` flag only, and every other entry stays as it
/// was.
pub proof fn law_toggle_flips_only_the_kth_shown(s: Seq<EntryView>, f: Filter, k: int)
    requires
        0 <= k < count_fit(s, f),
    ensures
        toggled(s, f, k).len() == s.len(),
        exists|j: int| 0 <= j < s.len() && holds_kth_shown(s, f, k, j),
        forall|j: int|
            #![trigger toggled(s, f, k)[j]]
            0 <= j < s.len() ==> if holds_kth_shown(s, f, k, j) {
                &&& toggled(s, f, k)[j].completed == !s[j].completed
                &&& toggled(s, f, k)[j].id == s[j].id
                &&& toggled(s, f, k)[j].description == s[j].description
                &&& toggled(s, f, k)[j].editing == s[j].editing
            } else {
                toggled(s, f, k)[j] == s[j]
            },
{
    let p = lemma_kth_position(s, f, k);
}

/// Starting or ending the edit of the `k`-th shown entry flips that
/// entry's `editing` flag and nothing else: its completion, description and
/// id stay, and every other entry stays as it was.
pub proof fn law_toggle_edit_flips_only_editing(s: Seq<EntryView>, f: Filter, k: int)
    requires
        0 <= k < count_fit(s, f),
    ensures
        edit_toggled(s, f, k).len() == s.len(),
        forall|j: int|
            #![trigger edit_toggled(s, f, k)[j]]
            0 <= j < s.len() ==> {
                &&& edit_toggled(s, f, k)[j].completed == s[j].completed
                &&& edit_toggled(s, f, k)[j].id == s[j].id
                &&& edit_toggled(s, f, k)[j].description == s[j].description
                &&& edit_toggled(s, f, k)[j].editing == if holds_kth_shown(s, f, k, j) {
                    !s[j].editing
                } else {
                    s[j].editing
                }
            },
{
    let p = lemma_kth_position(s, f, k);
}

/// "Toggle all" sets the completion of exactly the shown entries: a shown
/// entry gets `value` and keeps its other fields, an entry the filter does
/// not show stays as it was.
pub proof fn law_toggle_all_touches_only_shown(s: Seq<EntryView>, f: Filter, value: bool)
    ensures
        all_shown_set(s, f, value).len() == s.len(),
        forall|j: int|
            #![trigger all_shown_set(s, f, value)[j]]
            0 <= j < s.len() ==> if f.admits(s[j]) {
                &&& all_shown_set(s, f, value)[j].completed == value
                &&& all_shown_set(s, f, value)[j].id == s[j].id
                &&& all_shown_set(s, f, value)[j].description == s[j].description
                &&& all_shown_set(s, f, value)[j].editing == s[j].editing
            } else {
                all_shown_set(s, f, value)[j] == s[j]
            },
{
}

/// Ending all edits clears every `editing` flag and changes nothing else.
pub proof fn law_clear_all_edit_only_clears_editing(s: Seq<EntryView>)
    ensures
        edits_cleared(s).len() == s.len(),
        forall|j: int|
            #![trigger edits_cleared(s)[j]]
            0 <= j < s.len() ==> {
                &&& !edits_cleared(s)[j].editing
                &&& edits_cleared(s)[j].completed == s[j].completed
                &&& edits_cleared(s)[j].id == s[j].id
                &&& edits_cleared(s)[j].description == s[j].description
            },
{
}

/// Removing the `k`-th shown entry drops the entry the filter shows with
/// `k` shown entries before it; the entries before it stay in place and the
/// entries after it move up by one.
pub proof fn law_remove_drops_the_kth_shown(s: Seq<EntryView>, f: Filter, k: int)
    requires
        0 <= k < count_fit(s, f),
    ensures
        exists|p: int|
            0 <= p < s.len() && holds_kth_shown(s, f, k, p) && removed(s, f, k).len() == s.len()
                - 1 && (forall|j: int| 0 <= j < p ==> #[trigger] removed(s, f, k)[j] == s[j])
                && (forall|j: int|
                p <= j < s.len() - 1 ==> #[trigger] removed(s, f, k)[j] == s[j + 1]),
{
    let p = lemma_kth_position(s, f, k);
    assert(holds_kth_shown(s, f, k, p));
}

/// Ending the edit of the `k`-th shown entry with a non-empty text gives
/// that entry the text as its description and flips its `editing` flag,
/// keeping its id and completion; every other entry stays as it was. With
/// an empty text the entry is dropped and the others keep their order.
pub proof fn law_complete_edit_changes_only_the_kth_shown(
    s: Seq<EntryView>,
    f: Filter,
    k: int,
    val: Seq<char>,
)
    requires
        0 <= k < count_fit(s, f),
    ensures
        val.len() > 0 ==> {
            &&& edit_completed(s, f, k, val).len() == s.len()
            &&& forall|j: int|
                #![trigger edit_completed(s, f, k, val)[j]]
                0 <= j < s.len() ==> if holds_kth_shown(s, f, k, j) {
                    &&& edit_completed(s, f, k, val)[j].description == val
                    &&& edit_completed(s, f, k, val)[j].editing == !s[j].editing
                    &&& edit_completed(s, f, k, val)[j].completed == s[j].completed
                    &&& edit_completed(s, f, k, val)[j].id == s[j].id
                } else {
                    edit_completed(s, f, k, val)[j] == s[j]
                }
        },
        val.len() == 0 ==> exists|p: int|
            0 <= p < s.len() && holds_kth_shown(s, f, k, p) && edit_completed(s, f, k, val).len()
                == s.len() - 1 && (forall|j: int|
                0 <= j < p ==> #[trigger] edit_completed(s, f, k, val)[j] == s[j]) && (forall|
                j: int,
            |
                p <= j < s.len() - 1 ==> #[trigger] edit_completed(s, f, k, val)[j] == s[j + 1]),
{
    let p = lemma_kth_position(s, f, k);
    assert(holds_kth_shown(s, f, k, p));
}

/// Whatever the rule for entries without an id, an entry whose id spells
/// an object id is looked up by that id: the session asks for the documents
/// with exactly that `_id`, never for all documents or an insert.
pub proof fn law_entry_with_id_is_looked_up_by_it(session: SaveSession, step: SaveStep)
    requires
        session.begun(step),
        session.next < session.entries@.len(),
        is_object_id_text(session.entries@[session.next as int]._id@),
    ensures
        session.stage == Stage::Finding,
        step matches SaveStep::Request(StoreRequest::FindById(b)) && b@ == object_id_bytes_of(
            session.entries@[session.next as int]._id@,
        ),
{
}

/// Only an entry without an id is inserted at once, and only under the
/// `Insert` rule; only an entry without an id leads to a lookup of all
/// documents, and only under the `FindAll` rule; an entry is refused only
/// when its id spells no object id.
pub proof fn law_what_each_entry_asks_for(session: SaveSession, step: SaveStep)
    requires
        session.well_formed(),
        session.begun(step),
    ensures
        (step matches SaveStep::Request(StoreRequest::FindAll)) ==> (session.next
            < session.entries@.len() && session.entries@[session.next as int]._id@.len() == 0
            && session.rule == BlankIdRule::FindAll),
        step matches SaveStep::Request(StoreRequest::Insert(x)) ==> session.next
            < session.entries@.len() && x == session.entries@[session.next as int] && x._id@.len()
            == 0 && session.rule == BlankIdRule::Insert,
        (step matches SaveStep::InvalidId) ==> (session.next < session.entries@.len()
            && !is_object_id_text(session.entries@[session.next as int]._id@) && (
        session.entries@[session.next as int]._id@.len() == 0 ==> session.rule
            == BlankIdRule::Reject)),
        step matches SaveStep::Done(v) ==> session.next == session.entries@.len() && v@
            == session.saved@,
{
}

/// The filters mean what their names say: `All` shows every entry,
/// `Active` those not completed, `Completed` those completed.
pub proof fn law_filter_meaning(e: EntryView)
    ensures
        Filter::All.admits(e),
        Filter::Active.admits(e) <==> !e.completed,
        Filter::Completed.admits(e) <==> e.completed,
{
}

/// The shown entries are exactly the entries the filter shows, in their
/// order: there are as many as the filter counts, each is shown by the
/// filter, and the entry at position `j` that the filter shows comes at
/// place `count_fit(s.take(j), f)` among them.
pub proof fn law_fitting_keeps_shown_in_order(s: Seq<EntryView>, f: Filter)
    ensures
        fitting(s, f).len() == count_fit(s, f),
        forall|i: int| 0 <= i < fitting(s, f).len() ==> f.admits(#[trigger] fitting(s, f)[i]),
        forall|j: int|
            0 <= j < s.len() && f.admits(s[j]) ==> #[trigger] fitting(s, f)[count_fit(
                s.take(j),
                f,
            ) as int] == s[j],
    decreases s.len(),
{
    lemma_count_fit_bounded(s, f);
    lemma_fitting_admitted(s, f);
    if s.len() > 0 {
        let q = s.drop_last();
        law_fitting_keeps_shown_in_order(q, f);
        lemma_count_fit_bounded(q, f);
        assert forall|j: int| 0 <= j < s.len() && f.admits(s[j]) implies #[trigger] fitting(
            s,
            f,
        )[count_fit(s.take(j), f) as int] == s[j] by {
            if j < s.len() - 1 {
                assert(s.take(j) =~= q.take(j));
                assert(q[j] == s[j]);
                assert(fitting(q, f)[count_fit(q.take(j), f) as int] == q[j]);
                crate::state::lemma_count_fit_monotone(q, f, j + 1, q.len() as int);
                crate::state::lemma_count_fit_step(q, f, j);
                assert(q.take(q.len() as int) =~= q);
            } else {
                assert(s.take(j) =~= q);
            }
        }
    }
}

} // verus!
