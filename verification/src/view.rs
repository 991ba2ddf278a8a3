//! What the list page shows, apart from the markup itself: which entries
//! are listed, the class names that style them, and the filter links.

use vstd::prelude::*;
use crate::models::{Entry, entry_views};
use crate::state::{Filter, State, fitting, lemma_count_fit_step};

verus! {

impl Filter {
    /// The link target of the filter.
    pub fn href(&self) -> (r: String)
        ensures
            r@ == match *self {
                Filter::All => "#/"@,
                Filter::Active => "#/active"@,
                Filter::Completed => "#/completed"@,
            },
    {
        match *self {
            Filter::All => "#/".to_string(),
            Filter::Active => "#/active".to_string(),
            Filter::Completed => "#/completed".to_string(),
        }
    }
}

impl State {
    /// Copies of the entries that the current filter shows, in their order;
    /// the list numbers them from 0 in this order.
    pub fn shown_entries(&self) -> (r: Vec<Entry>)
        ensures
            entry_views(r@) == fitting(self.entries_view(), self.filter),
    {
        let ghost s = self.entries_view();
        let mut r: Vec<Entry> = Vec::new();
        for i in 0..self.entries.len()
            invariant
                s == self.entries_view(),
                s.len() == self.entries@.len(),
                entry_views(r@) == fitting(s.take(i as int), self.filter),
        {
            proof {
                lemma_count_fit_step(s, self.filter, i as int);
            }
            if self.filter.fit(&self.entries[i]) {
                r.push(self.entries[i].clone());
            }
            assert(entry_views(r@) =~= fitting(s.take(i + 1), self.filter));
        }
        assert(s.take(s.len() as int) =~= s);
        r
    }

    /// The class that hides the list and its footer: `hidden` when there
    /// is no entry at all, else empty.
    pub fn hidden_class(&self) -> (r: String)
        ensures
            r@ == if self.entries@.len() == 0 {
                "hidden"@
            } else {
                ""@
            },
    {
        if self.entries.len() == 0 {
            "hidden".to_string()
        } else {
            "".to_string()
        }
    }

    /// The class of the link to `filter`: `selected` for the current one.
    pub fn filter_class(&self, filter: Filter) -> (r: String)
        ensures
            r@ == if self.filter == filter {
                "selected"@
            } else {
                "not-selected"@
            },
    {
        if self.filter == filter {
            "selected".to_string()
        } else {
            "not-selected".to_string()
        }
    }
}

/// The class of an entry's list item: `todo`, then ` editing` while it is
/// being edited, then ` completed` when it is done.
pub fn entry_class(entry: &Entry) -> (r: String)
    ensures
        r@ == "todo"@ + (if entry.editing {
            " editing"@
        } else {
            ""@
        }) + (if entry.completed {
            " completed"@
        } else {
            ""@
        }),
{
    let mut class = "todo".to_string();
    let ghost start = class@;
    if entry.editing {
        class.append(" editing");
    }
    let ghost middle = class@;
    assert(middle == start + (if entry.editing {
        " editing"@
    } else {
        ""@
    })) by {
        if !entry.editing {
            assert(start + ""@ =~= start) by {
                reveal_strlit("");
            }
        }
    }
    if entry.completed {
        class.append(" completed");
    }
    assert(class@ == middle + (if entry.completed {
        " completed"@
    } else {
        ""@
    })) by {
        if !entry.completed {
            assert(middle + ""@ =~= middle) by {
                reveal_strlit("");
            }
        }
    }
    class
}

} // verus!
