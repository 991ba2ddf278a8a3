use rocket_yew_todo::models::Entry;
use rocket_yew_todo::state::{Filter, State};

fn entry(id: &str, description: &str, completed: bool) -> Entry {
    Entry {
        _id: id.to_string(),
        completed,
        description: description.to_string(),
        editing: false,
    }
}

fn state(entries: Vec<Entry>, filter: Filter) -> State {
    State {
        entries,
        filter,
        value: String::new(),
        edit_value: String::new(),
        request_counter: 0,
    }
}

fn sample(filter: Filter) -> State {
    state(
        vec![
            entry("a", "one", false),
            entry("b", "two", true),
            entry("c", "three", false),
            entry("d", "four", true),
        ],
        filter,
    )
}

fn descriptions(s: &State) -> Vec<String> {
    s.entries.iter().map(|e| e.description.clone()).collect()
}

#[test]
fn filter_fit_follows_completion() {
    let done = entry("", "x", true);
    let open = entry("", "y", false);
    assert!(Filter::All.fit(&done) && Filter::All.fit(&open));
    assert!(!Filter::Active.fit(&done) && Filter::Active.fit(&open));
    assert!(Filter::Completed.fit(&done) && !Filter::Completed.fit(&open));
}

#[test]
fn totals_count_all_and_completed() {
    let s = sample(Filter::Active);
    assert_eq!(s.total(), 4);
    assert_eq!(s.total_completed(), 2);
    assert_eq!(s.count_shown(Filter::Active), 2);
    assert_eq!(s.count_shown(Filter::All), 4);
}

#[test]
fn filters_partition_the_entries() {
    let s = sample(Filter::All);
    assert_eq!(
        s.count_shown(Filter::Active) + s.count_shown(Filter::Completed),
        s.total()
    );
}

#[test]
fn all_completed_needs_a_shown_entry() {
    assert!(!state(vec![], Filter::All).is_all_completed());
    let s = state(vec![entry("", "x", true)], Filter::Active);
    assert!(!s.is_all_completed());
    let s = state(vec![entry("", "x", true)], Filter::All);
    assert!(s.is_all_completed());
    assert!(!sample(Filter::All).is_all_completed());
    assert!(sample(Filter::Completed).is_all_completed());
}

#[test]
fn toggle_all_touches_only_shown_entries() {
    let mut s = sample(Filter::Active);
    s.toggle_all(true);
    assert!(s.entries.iter().all(|e| e.completed));
    let mut s = sample(Filter::Completed);
    s.toggle_all(false);
    assert!(s.entries.iter().all(|e| !e.completed));
    assert_eq!(descriptions(&s), vec!["one", "two", "three", "four"]);
}

#[test]
fn toggle_all_twice_under_all_flips_back_and_forth() {
    let mut s = sample(Filter::All);
    let before = s.is_all_completed();
    let status = !s.is_all_completed();
    s.toggle_all(status);
    assert_eq!(s.is_all_completed(), !before);
    let status = !s.is_all_completed();
    s.toggle_all(status);
    assert!(!s.is_all_completed());
    assert!(s.entries.iter().all(|e| !e.completed));
}

#[test]
fn clear_completed_keeps_active_in_order() {
    let mut s = sample(Filter::All);
    s.clear_completed();
    assert_eq!(descriptions(&s), vec!["one", "three"]);
    assert_eq!(s.total_completed(), 0);
    s.clear_completed();
    assert_eq!(descriptions(&s), vec!["one", "three"]);
}

#[test]
fn shown_index_counts_among_shown_entries() {
    let s = sample(Filter::Completed);
    assert_eq!(s.shown_index(0), 1);
    assert_eq!(s.shown_index(1), 3);
    let s = sample(Filter::Active);
    assert_eq!(s.shown_index(1), 2);
}

#[test]
fn toggle_flips_the_shown_entry() {
    let mut s = sample(Filter::Active);
    s.toggle(1);
    assert!(s.entries[2].completed);
    assert_eq!(s.entries.iter().filter(|e| e.completed).count(), 3);
}

#[test]
fn toggle_twice_restores_under_all() {
    let mut s = sample(Filter::All);
    s.toggle(2);
    assert!(s.entries[2].completed);
    s.toggle(2);
    assert_eq!(s.entries, sample(Filter::All).entries);
}

#[test]
fn toggle_edit_and_clear_all_edit() {
    let mut s = sample(Filter::Completed);
    s.toggle_edit(1);
    assert!(s.entries[3].editing);
    assert!(!s.entries[1].editing);
    s.clear_all_edit();
    assert!(s.entries.iter().all(|e| !e.editing));
}

#[test]
fn complete_edit_with_text_sets_description() {
    let mut s = sample(Filter::Completed);
    s.entries[3].editing = true;
    s.complete_edit(1, "FOUR".to_string());
    assert_eq!(s.entries[3].description, "FOUR");
    assert!(!s.entries[3].editing);
    assert_eq!(s.total(), 4);
}

#[test]
fn complete_edit_with_empty_text_removes() {
    let mut s = sample(Filter::Completed);
    s.complete_edit(0, String::new());
    assert_eq!(descriptions(&s), vec!["one", "three", "four"]);
}

#[test]
fn remove_takes_the_shown_entry() {
    let mut s = sample(Filter::Active);
    s.remove(1);
    assert_eq!(descriptions(&s), vec!["one", "two", "four"]);
    assert_eq!(s.count_shown(Filter::Active), 1);
}

#[test]
fn all_completed_matches_the_counters() {
    let s = sample(Filter::All);
    assert!(!s.is_all_completed());
    assert_ne!(s.total_completed(), s.total());
    let s = state(vec![entry("", "a", true), entry("", "b", true)], Filter::All);
    assert!(s.is_all_completed());
    assert_eq!(s.total_completed(), s.total());
}
