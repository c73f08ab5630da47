//! A small ATProto-style service library: the pure request/response logic of
//! a health endpoint and two repository record endpoints, with contracts.
//!
//! The HTTP server, argument parsing and JSON wire handling live outside this
//! library; every function here maps plain input values to plain output
//! values.

pub mod config;
pub mod handlers;
pub mod laws;
pub mod messages;
pub mod router;
pub mod uri;
