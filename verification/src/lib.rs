//! Verified core of a todo list application: the client's list state and
//! its message handling, the requests the client sends, and the server's
//! rules for turning stored documents into entries and saving entries one
//! by one.

pub mod config;
pub mod laws;
pub mod model;
pub mod models;
pub mod object_id;
pub mod state;
pub mod store;
pub mod task_client;
pub mod task_requests;
pub mod text;
pub mod view;
