//! A verified core for a small article question-and-answer console tool.
//!
//! The tool reads an article file once, then loops: it asks the user for a
//! query, builds a chat request over the article, posts it to a remote
//! completion endpoint, and appends each parsed reply to a JSON log file.
//! This crate holds everything that can be stated and proved: message
//! construction, credential gating, the continue sentinel, and the
//! read-append-rewrite discipline of the log. The console, file system,
//! environment and network edges live outside, in the surrounding binary.

pub mod conversation;
pub mod errors;
pub mod model;
pub mod request;
pub mod response_log;
pub mod session;
pub mod sentinel;
