//! The requests that the client sends to the task routes: method, address,
//! whether the body is JSON, what the body holds and which message the
//! answer comes back as.

use vstd::prelude::*;
use crate::models::{Entry, TaskResponse, copy_entries};

verus! {

/// The address of the task routes, relative to the page.
pub const TASK_API_URL: &'static str = "/tasks";

/// An HTTP method.
#[derive(Clone, Copy, Debug, PartialEq, Eq, Structural)]
pub enum Method {
    Get,
    Put,
    Post,
    Delete,
}

/// What a request carries in its body.
#[derive(Debug)]
pub enum Payload {
    Nothing,
    Tasks(Vec<Entry>),
    Entry(Entry),
}

/// The message that the answer to a request comes back as.
#[derive(Clone, Copy, Debug, PartialEq, Eq, Structural)]
pub enum AnswerMessage {
    TasksReceived,
    UpdateEntryReceived,
    AddEntryReceived,
    DeleteEntryReceived,
}

/// A request to start, with the id that its answer carries.
#[derive(Debug)]
pub struct FetchPlan {
    pub request_id: u64,
    pub method: Method,
    pub url: String,
    /// The request sends the header `Content-Type: application/json`.
    pub json_content: bool,
    pub body: Payload,
    pub answer: AnswerMessage,
}

/// The task routes' address followed by `/` and `id`.
pub open spec fn entry_url(id: Seq<char>) -> Seq<char> {
    TASK_API_URL@ + "/"@ + id
}

fn url_of_entry(id: &str) -> (r: String)
    ensures
        r@ == entry_url(id@),
{
    let mut url = TASK_API_URL.to_string();
    url.append("/");
    url.append(id);
    url
}

/// Builds the requests that the client sends.
pub struct TaskClient {}

impl TaskClient {
    /// `GET /tasks`, no body; answered by `TasksReceived`.
    pub fn get_tasks(request_id: u64) -> (r: FetchPlan)
        ensures
            r.request_id == request_id,
            r.method == Method::Get,
            r.url@ == TASK_API_URL@,
            !r.json_content,
            r.body matches Payload::Nothing,
            r.answer == AnswerMessage::TasksReceived,
    {
        FetchPlan {
            request_id,
            method: Method::Get,
            url: TASK_API_URL.to_string(),
            json_content: false,
            body: Payload::Nothing,
            answer: AnswerMessage::TasksReceived,
        }
    }

    /// `PUT /tasks` with the whole list as JSON; answered by
    /// `TasksReceived`.
    pub fn update_tasks(request_id: u64, tasks: &TaskResponse) -> (r: FetchPlan)
        ensures
            r.request_id == request_id,
            r.method == Method::Put,
            r.url@ == TASK_API_URL@,
            r.json_content,
            r.body matches Payload::Tasks(v) && v@ == tasks.tasks@,
            r.answer == AnswerMessage::TasksReceived,
    {
        FetchPlan {
            request_id,
            method: Method::Put,
            url: TASK_API_URL.to_string(),
            json_content: true,
            body: Payload::Tasks(copy_entries(&tasks.tasks)),
            answer: AnswerMessage::TasksReceived,
        }
    }

    /// `PUT /tasks/<id>` with the entry as JSON, where an entry without an
    /// id is addressed as `0`; answered by `UpdateEntryReceived`.
    pub fn update_task(request_id: u64, entry: &Entry) -> (r: FetchPlan)
        ensures
            r.request_id == request_id,
            r.method == Method::Put,
            r.url@ == entry_url(
                if entry._id@.len() == 0 {
                    "0"@
                } else {
                    entry._id@
                },
            ),
            r.json_content,
            r.body matches Payload::Entry(e) && e == *entry,
            r.answer == AnswerMessage::UpdateEntryReceived,
    {
        let url = if entry._id.as_str().is_empty() {
            url_of_entry("0")
        } else {
            url_of_entry(entry._id.as_str())
        };
        FetchPlan {
            request_id,
            method: Method::Put,
            url,
            json_content: true,
            body: Payload::Entry(entry.clone()),
            answer: AnswerMessage::UpdateEntryReceived,
        }
    }

    /// `POST /tasks` with the entry as JSON; answered by
    /// `AddEntryReceived`.
    pub fn add_task(request_id: u64, entry: &Entry) -> (r: FetchPlan)
        ensures
            r.request_id == request_id,
            r.method == Method::Post,
            r.url@ == TASK_API_URL@,
            r.json_content,
            r.body matches Payload::Entry(e) && e == *entry,
            r.answer == AnswerMessage::AddEntryReceived,
    {
        FetchPlan {
            request_id,
            method: Method::Post,
            url: TASK_API_URL.to_string(),
            json_content: true,
            body: Payload::Entry(entry.clone()),
            answer: AnswerMessage::AddEntryReceived,
        }
    }

    /// `DELETE /tasks/<id>` (the id as it is, even when empty), no body;
    /// answered by `DeleteEntryReceived`.
    pub fn delete_task(request_id: u64, entry: &Entry) -> (r: FetchPlan)
        ensures
            r.request_id == request_id,
            r.method == Method::Delete,
            r.url@ == entry_url(entry._id@),
            r.json_content,
            r.body matches Payload::Nothing,
            r.answer == AnswerMessage::DeleteEntryReceived,
    {
        FetchPlan {
            request_id,
            method: Method::Delete,
            url: url_of_entry(entry._id.as_str()),
            json_content: true,
            body: Payload::Nothing,
            answer: AnswerMessage::DeleteEntryReceived,
        }
    }
}

} // verus!
