use rocket_yew_todo::model::{Action, Model, Msg};
use rocket_yew_todo::models::{Entry, TaskResponse};
use rocket_yew_todo::state::Filter;

fn entry(id: &str, description: &str, completed: bool) -> Entry {
    Entry {
        _id: id.to_string(),
        completed,
        description: description.to_string(),
        editing: false,
    }
}

fn fresh() -> Model {
    Model::create().0
}

fn run(m: &mut Model, msg: Msg) -> Vec<Action> {
    assert!(m.can_handle(&msg));
    let (render, actions) = m.update(msg);
    assert!(render);
    actions
}

fn sends_update_tasks(actions: &[Action]) -> bool {
    actions.len() == 1 && matches!(actions[0], Action::Send(Msg::UpdateTasks))
}

#[test]
fn create_starts_empty_and_fetches() {
    let (m, actions) = Model::create();
    assert!(m.state.entries.is_empty());
    assert_eq!(m.state.filter, Filter::All);
    assert_eq!(m.state.request_counter, 0);
    assert!(m.pending_requests.is_empty());
    assert_eq!(actions.len(), 1);
    assert!(matches!(actions[0], Action::Send(Msg::GetTasks)));
}

#[test]
fn add_trims_and_appends_then_saves() {
    let mut m = fresh();
    m.state.value = "  buy milk \t".to_string();
    let actions = run(&mut m, Msg::Add);
    assert_eq!(m.state.entries, vec![entry("", "buy milk", false)]);
    assert_eq!(m.state.value, "");
    assert!(sends_update_tasks(&actions));
}

#[test]
fn add_trims_unicode_white_space() {
    let mut m = fresh();
    m.state.value = "\u{3000}x y\u{a0}\u{2028}".to_string();
    run(&mut m, Msg::Add);
    assert_eq!(m.state.entries[0].description, "x y");
}

#[test]
fn add_of_blank_text_adds_nothing() {
    let mut m = fresh();
    m.state.value = " \n\u{2003} ".to_string();
    let actions = run(&mut m, Msg::Add);
    assert!(m.state.entries.is_empty());
    assert_eq!(m.state.value, "");
    assert!(sends_update_tasks(&actions));
}

#[test]
fn update_and_update_edit_store_text_and_print() {
    let mut m = fresh();
    let actions = run(&mut m, Msg::Update("abc".to_string()));
    assert_eq!(m.state.value, "abc");
    assert!(matches!(&actions[0], Action::Print(line) if line == "Input: abc"));
    let actions = run(&mut m, Msg::UpdateEdit("def".to_string()));
    assert_eq!(m.state.edit_value, "def");
    assert!(matches!(&actions[0], Action::Print(line) if line == "Input: def"));
}

#[test]
fn toggle_edit_copies_description_by_list_position() {
    let mut m = fresh();
    m.state.entries = vec![entry("", "first", true), entry("", "second", false)];
    m.state.entries[0].editing = true;
    m.state.filter = Filter::Active;
    let actions = run(&mut m, Msg::ToggleEdit(0));
    assert!(actions.is_empty());
    // the text comes from entry 0 of the whole list, the flag goes to the
    // first shown (active) entry
    assert_eq!(m.state.edit_value, "first");
    assert!(!m.state.entries[0].editing);
    assert!(m.state.entries[1].editing);
}

#[test]
fn edit_trims_and_ends_editing() {
    let mut m = fresh();
    m.state.entries = vec![entry("", "old", false)];
    m.state.entries[0].editing = true;
    m.state.edit_value = "  new  ".to_string();
    let actions = run(&mut m, Msg::Edit(0));
    assert_eq!(m.state.entries[0].description, "new");
    assert!(!m.state.entries[0].editing);
    assert_eq!(m.state.edit_value, "");
    assert!(sends_update_tasks(&actions));
}

#[test]
fn edit_to_blank_removes_the_entry() {
    let mut m = fresh();
    m.state.entries = vec![entry("", "a", false), entry("", "b", false)];
    m.state.edit_value = "   ".to_string();
    run(&mut m, Msg::Edit(1));
    assert_eq!(m.state.entries, vec![entry("", "a", false)]);
}

#[test]
fn list_changes_are_saved() {
    let mut m = fresh();
    m.state.entries = vec![entry("", "a", false), entry("", "b", true)];
    assert!(sends_update_tasks(&run(&mut m, Msg::Toggle(0))));
    assert!(m.state.entries[0].completed);
    assert!(sends_update_tasks(&run(&mut m, Msg::ToggleAll)));
    assert!(m.state.entries.iter().all(|e| !e.completed));
    m.state.entries[1].completed = true;
    assert!(sends_update_tasks(&run(&mut m, Msg::ClearCompleted)));
    assert_eq!(m.state.entries, vec![entry("", "a", false)]);
    assert!(sends_update_tasks(&run(&mut m, Msg::Remove(0))));
    assert!(m.state.entries.is_empty());
}

#[test]
fn set_filter_focus_and_nope() {
    let mut m = fresh();
    assert!(run(&mut m, Msg::SetFilter(Filter::Completed)).is_empty());
    assert_eq!(m.state.filter, Filter::Completed);
    let actions = run(&mut m, Msg::Focus);
    assert!(matches!(actions[0], Action::FocusEditField));
    assert!(run(&mut m, Msg::Nope).is_empty());
}

#[test]
fn requests_get_fresh_ids() {
    let mut m = fresh();
    m.state.entries = vec![entry("x", "a", false)];
    let a = run(&mut m, Msg::GetTasks);
    assert!(matches!(a[0], Action::FetchTasks(0)));
    let b = run(&mut m, Msg::UpdateTasks);
    match &b[0] {
        Action::SaveTasks(id, tasks) => {
            assert_eq!(*id, 1);
            assert_eq!(*tasks, vec![entry("x", "a", false)]);
        }
        other => panic!("unexpected {:?}", other),
    }
    assert_eq!(m.state.request_counter, 2);
    assert_eq!(m.pending_requests, vec![0, 1]);
}

#[test]
fn answers_replace_entries_or_report() {
    let mut m = fresh();
    run(&mut m, Msg::GetTasks);
    run(&mut m, Msg::GetTasks);
    let response = TaskResponse { tasks: vec![entry("id1", "from server", true)] };
    let actions = run(&mut m, Msg::TasksReceived(0, Ok(response)));
    assert!(actions.is_empty());
    assert_eq!(m.state.entries, vec![entry("id1", "from server", true)]);
    assert_eq!(m.pending_requests, vec![1]);
    let actions = run(&mut m, Msg::TasksReceived(1, Err("offline".to_string())));
    assert!(matches!(&actions[0], Action::ShowError(e) if e == "offline"));
    assert_eq!(m.state.entries.len(), 1);
    assert!(m.pending_requests.is_empty());
    // an unknown id changes nothing
    run(&mut m, Msg::TasksReceived(7, Err("late".to_string())));
    assert!(m.pending_requests.is_empty());
}

#[test]
fn out_of_range_messages_are_refused() {
    let mut m = fresh();
    m.state.entries = vec![entry("", "a", true)];
    m.state.filter = Filter::Active;
    assert!(!m.can_handle(&Msg::Toggle(0)));
    assert!(!m.can_handle(&Msg::Remove(0)));
    assert!(!m.can_handle(&Msg::Edit(0)));
    assert!(!m.can_handle(&Msg::ToggleEdit(0)));
    m.state.filter = Filter::All;
    assert!(m.can_handle(&Msg::ToggleEdit(0)));
    assert!(!m.can_handle(&Msg::ToggleEdit(1)));
    m.state.request_counter = u64::MAX;
    assert!(!m.can_handle(&Msg::GetTasks));
    assert!(!m.can_handle(&Msg::UpdateTasks));
    assert!(m.can_handle(&Msg::Nope));
}
