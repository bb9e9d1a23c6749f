//! The core of a terminal chat client: the conversation that is sent to a
//! completion endpoint, the decisions of one request/response exchange, and
//! the rule that ends a session.
//!
//! The crate performs no I/O. A driver reads lines, sends requests and prints
//! replies; what to do with each outcome is decided here.
//!
//! - `request_body`: the conversation and its JSON text.
//! - `interaction`: the steps of an exchange and the interactive loop.
//! - `errors`: what can fail in an exchange, and how it is described.
//! - `json`: JSON documents, read and written with `serde_json`.
//! - `client`: the HTTP client with its default headers.

pub mod client;
pub mod errors;
pub mod interaction;
pub mod json;
pub mod request_body;
