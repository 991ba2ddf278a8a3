use rocket_yew_todo::config::Config;
use rocket_yew_todo::models::{Entry, TaskResponse};
use rocket_yew_todo::state::{Filter, State};
use rocket_yew_todo::task_client::{AnswerMessage, Method, Payload, TaskClient, TASK_API_URL};
use rocket_yew_todo::task_requests::{GetTaskRequest, PutTaskRequest, RequestBody};
use rocket_yew_todo::view::entry_class;

fn entry(id: &str, description: &str, completed: bool, editing: bool) -> Entry {
    Entry {
        _id: id.to_string(),
        completed,
        description: description.to_string(),
        editing,
    }
}

#[test]
fn filter_links() {
    assert_eq!(Filter::All.href(), "#/");
    assert_eq!(Filter::Active.href(), "#/active");
    assert_eq!(Filter::Completed.href(), "#/completed");
}

#[test]
fn entry_classes() {
    assert_eq!(entry_class(&entry("", "", false, false)), "todo");
    assert_eq!(entry_class(&entry("", "", false, true)), "todo editing");
    assert_eq!(entry_class(&entry("", "", true, false)), "todo completed");
    assert_eq!(entry_class(&entry("", "", true, true)), "todo editing completed");
}

#[test]
fn page_classes_and_shown_entries() {
    let mut s = State {
        entries: vec![],
        filter: Filter::Active,
        value: String::new(),
        edit_value: String::new(),
        request_counter: 0,
    };
    assert_eq!(s.hidden_class(), "hidden");
    s.entries = vec![entry("", "a", true, false), entry("", "b", false, false)];
    assert_eq!(s.hidden_class(), "");
    assert_eq!(s.filter_class(Filter::Active), "selected");
    assert_eq!(s.filter_class(Filter::All), "not-selected");
    assert_eq!(s.shown_entries(), vec![entry("", "b", false, false)]);
}

#[test]
fn task_client_requests() {
    let get = TaskClient::get_tasks(3);
    assert_eq!((get.request_id, get.method, get.url.as_str()), (3, Method::Get, TASK_API_URL));
    assert!(!get.json_content);
    assert!(matches!(get.body, Payload::Nothing));
    assert_eq!(get.answer, AnswerMessage::TasksReceived);

    let list = TaskResponse { tasks: vec![entry("1", "a", false, false)] };
    let put = TaskClient::update_tasks(4, &list);
    assert_eq!((put.method, put.url.as_str()), (Method::Put, "/tasks"));
    assert!(matches!(&put.body, Payload::Tasks(v) if *v == list.tasks));

    let e = entry("", "new", false, false);
    let upd = TaskClient::update_task(5, &e);
    assert_eq!((upd.method, upd.url.as_str()), (Method::Put, "/tasks/0"));
    assert_eq!(upd.answer, AnswerMessage::UpdateEntryReceived);
    let upd = TaskClient::update_task(5, &entry("abc", "x", true, false));
    assert_eq!(upd.url, "/tasks/abc");

    let add = TaskClient::add_task(6, &e);
    assert_eq!((add.method, add.url.as_str()), (Method::Post, "/tasks"));
    assert!(matches!(&add.body, Payload::Entry(x) if *x == e));
    assert_eq!(add.answer, AnswerMessage::AddEntryReceived);

    let del = TaskClient::delete_task(7, &e);
    assert_eq!((del.method, del.url.as_str()), (Method::Delete, "/tasks/"));
    assert!(del.json_content);
    assert_eq!(del.answer, AnswerMessage::DeleteEntryReceived);
}

#[test]
fn fetch_service_requests() {
    let get = GetTaskRequest::default();
    assert_eq!(get.url(), "http://localhost:8000/tasks");
    assert_eq!(get.method(), Method::Get);
    assert!(get.headers().is_empty());
    assert!(get.use_cors());
    let put = PutTaskRequest::default();
    assert!(put.data.tasks.is_empty());
    assert_eq!(put.url(), "http://localhost:8000/tasks");
    assert_eq!(put.method(), Method::Put);
    assert_eq!(
        put.headers(),
        vec![("Content-Type".to_string(), "application/json".to_string())]
    );
    assert!(put.use_cors());
    assert!(RequestBody::default().tasks.is_empty());
}

#[test]
fn config_holds_its_values() {
    let c = Config::new("mongodb://h".into(), "db".into(), "tasks".into(), "dist".into());
    let d = c.clone();
    assert_eq!(d.mongodb_uri, "mongodb://h");
    assert_eq!(d.mongodb_db, "db");
    assert_eq!(d.mongodb_collection, "tasks");
    assert_eq!(d.static_files, "dist");
}
