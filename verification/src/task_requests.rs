//! The two requests of the client's fetch service: reading the task list
//! and writing it back, both to the server's task routes.

use vstd::prelude::*;
use crate::task_client::Method;

verus! {

/// The server address that both requests go to.
pub const TASKS_ENDPOINT: &'static str = "http://localhost:8000/tasks";

/// An entry as the fetch service sends it: without its id.
#[derive(Debug, PartialEq)]
pub struct Entry {
    pub description: String,
    pub completed: bool,
    pub editing: bool,
}

/// Reads the task list.
#[derive(Debug)]
pub struct GetTaskRequest;

/// Writes the task list `data`.
#[derive(Debug)]
pub struct PutTaskRequest {
    pub data: RequestBody,
}

/// The body of both requests' answers and of the write: the task list.
#[derive(Debug)]
pub struct RequestBody {
    pub tasks: Vec<Entry>,
}

impl Default for RequestBody {
    fn default() -> (r: RequestBody)
        ensures
            r.tasks@.len() == 0,
    {
        RequestBody { tasks: Vec::new() }
    }
}

impl Default for GetTaskRequest {
    fn default() -> (r: GetTaskRequest) {
        GetTaskRequest
    }
}

impl Default for PutTaskRequest {
    fn default() -> (r: PutTaskRequest)
        ensures
            r.data.tasks@.len() == 0,
    {
        PutTaskRequest { data: RequestBody::default() }
    }
}

/// The header that announces a JSON body.
pub open spec fn json_header() -> (Seq<char>, Seq<char>) {
    ("Content-Type"@, "application/json"@)
}

impl GetTaskRequest {
    pub fn url(&self) -> (r: String)
        ensures
            r@ == TASKS_ENDPOINT@,
    {
        TASKS_ENDPOINT.to_string()
    }

    /// `GET`, with no body.
    pub fn method(&self) -> (r: Method)
        ensures
            r == Method::Get,
    {
        Method::Get
    }

    pub fn headers(&self) -> (r: Vec<(String, String)>)
        ensures
            r@.len() == 0,
    {
        Vec::new()
    }

    pub fn use_cors(&self) -> (r: bool)
        ensures
            r,
    {
        true
    }
}

impl PutTaskRequest {
    pub fn url(&self) -> (r: String)
        ensures
            r@ == TASKS_ENDPOINT@,
    {
        TASKS_ENDPOINT.to_string()
    }

    /// `PUT`, with `self.data` as the body.
    pub fn method(&self) -> (r: Method)
        ensures
            r == Method::Put,
    {
        Method::Put
    }

    pub fn headers(&self) -> (r: Vec<(String, String)>)
        ensures
            r@.len() == 1,
            (r@[0].0@, r@[0].1@) == json_header(),
    {
        let mut r = Vec::new();
        r.push(("Content-Type".to_string(), "application/json".to_string()));
        r
    }

    pub fn use_cors(&self) -> (r: bool)
        ensures
            r,
    {
        true
    }
}

} // verus!
