//! The message shapes of the service: health, create-record and get-record
//! payloads, and the (currently empty) shared application state.

use vstd::prelude::*;

verus! {

/// Payload of the health endpoint.
#[derive(Debug)]
pub struct HealthResponse {
    /// Always `"healthy"`.
    pub status: String,
    /// The build version of the service.
    pub version: String,
    /// The service's name; never empty.
    pub service: String,
}

/// Body of a create-record call: where the record goes, and the record
/// itself as its JSON text.
#[derive(Debug)]
pub struct CreateRecordRequest {
    /// Repository identifier (the record's owner).
    pub repo: String,
    /// Collection the record belongs to.
    pub collection: String,
    /// The record body; an arbitrary structured value, carried as text and
    /// never inspected.
    pub record: String,
}

/// Result of a create-record call.
#[derive(Debug)]
pub struct CreateRecordResponse {
    /// `at://` URI of the created record.
    pub uri: String,
    /// Content identifier of the record.
    pub cid: String,
}

/// Query of a get-record call.
#[derive(Debug)]
pub struct GetRecordQuery {
    /// Repository identifier.
    pub repo: String,
    /// Collection the record belongs to.
    pub collection: String,
    /// Key of the record within the collection.
    pub rkey: String,
}

/// Result of a get-record call.
#[derive(Debug)]
pub struct GetRecordResponse {
    /// `at://` URI of the record.
    pub uri: String,
    /// Content identifier of the record.
    pub cid: String,
    /// The record body, as its JSON text.
    pub value: String,
}

/// Shared per-process state handed to every handler. It is empty for now: a
/// place for a future store handle or other shared resource.
#[derive(Clone, Copy)]
pub struct AppState {}

impl AppState {
    /// Builds the (empty) application state.
    pub fn new() -> AppState {
        AppState {}
    }
}

} // verus!
