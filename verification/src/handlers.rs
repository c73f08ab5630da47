//! The three operations of the service — health, create-record and
//! get-record — as pure functions from request values to response values,
//! together with the decision of what a handler returns when its input could
//! not be decoded.

use vstd::prelude::*;
use vstd::string::StringExecFns;
use crate::messages::{
    CreateRecordRequest, CreateRecordResponse, GetRecordQuery, GetRecordResponse, HealthResponse,
};
use crate::uri::{at_uri_view, make_at_uri};

verus! {

/// Status returned when a request's body or query could not be decoded.
pub const STATUS_BAD_REQUEST: u16 = 400;

/// A client-error HTTP status.
pub open spec fn is_client_error(status: u16) -> bool {
    400 <= status < 500
}

/// A server-error HTTP status.
pub open spec fn is_server_error(status: u16) -> bool {
    500 <= status < 600
}

/// The service's name.
pub open spec fn service_name_view() -> Seq<char> {
    "simple-atproto-service"@
}

/// The service's build version.
pub open spec fn service_version_view() -> Seq<char> {
    "0.1.0"@
}

/// The record key under which a created record is reported to live; a
/// placeholder until records are actually stored.
pub open spec fn placeholder_rkey_view() -> Seq<char> {
    "example123"@
}

/// The content identifier reported for every record; a placeholder until
/// content addressing is implemented.
pub open spec fn placeholder_cid_view() -> Seq<char> {
    "bafyreigbtj4x7ip5legnfznufuopl4sg4knzc2cof6duas4b3q2fy6swua"@
}

/// The record body reported by get-record; a placeholder until records are
/// actually looked up.
pub open spec fn placeholder_record_view() -> Seq<char> {
    "{\"text\":\"Hello ATProto!\",\"createdAt\":\"2024-01-01T00:00:00Z\"}"@
}

/// What the health endpoint returns.
pub open spec fn health_post(r: HealthResponse) -> bool {
    &&& r.status@ == "healthy"@
    &&& r.version@ == service_version_view()
    &&& r.service@ == service_name_view()
}

/// Reports the service healthy. Takes no input and reads no state: the
/// response is the same on every call.
pub fn health() -> (r: HealthResponse)
    ensures
        health_post(r),
        r.service@.len() > 0,
{
    proof {
        reveal_strlit("simple-atproto-service");
    }
    HealthResponse {
        status: "healthy".to_owned(),
        version: "0.1.0".to_owned(),
        service: "simple-atproto-service".to_owned(),
    }
}

/// What create-record returns for a decoded body: the URI points into the
/// requested repository and collection under the placeholder key, and the
/// content identifier is the placeholder constant.
pub open spec fn create_record_post(req: CreateRecordRequest, r: CreateRecordResponse) -> bool {
    &&& r.uri@ == at_uri_view(req.repo@, req.collection@, placeholder_rkey_view())
    &&& r.cid@ == placeholder_cid_view()
}

/// Answers a create-record call. Nothing is stored: the record body is left
/// untouched and the reply names the placeholder key and content identifier.
pub fn create_record(req: &CreateRecordRequest) -> (r: CreateRecordResponse)
    ensures
        create_record_post(*req, r),
{
    CreateRecordResponse {
        uri: make_at_uri(req.repo.as_str(), req.collection.as_str(), "example123"),
        cid: "bafyreigbtj4x7ip5legnfznufuopl4sg4knzc2cof6duas4b3q2fy6swua".to_owned(),
    }
}

/// What get-record returns for a decoded query: the URI is rebuilt, byte for
/// byte, from the three query components; the content identifier and the
/// record body are the placeholder constants.
pub open spec fn get_record_post(q: GetRecordQuery, r: GetRecordResponse) -> bool {
    &&& r.uri@ == at_uri_view(q.repo@, q.collection@, q.rkey@)
    &&& r.cid@ == placeholder_cid_view()
    &&& r.value@ == placeholder_record_view()
}

/// Answers a get-record call. No lookup happens: the URI echoes the query and
/// the value is fabricated.
pub fn get_record(q: &GetRecordQuery) -> (r: GetRecordResponse)
    ensures
        get_record_post(*q, r),
{
    GetRecordResponse {
        uri: make_at_uri(q.repo.as_str(), q.collection.as_str(), q.rkey.as_str()),
        cid: "bafyreigbtj4x7ip5legnfznufuopl4sg4knzc2cof6duas4b3q2fy6swua".to_owned(),
        value: "{\"text\":\"Hello ATProto!\",\"createdAt\":\"2024-01-01T00:00:00Z\"}".to_owned(),
    }
}

/// What the create-record endpoint returns: a successful response exactly
/// when the body was decoded, and the bad-request status exactly when it was
/// not.
pub open spec fn create_record_endpoint_post(
    body: Option<CreateRecordRequest>,
    r: Result<CreateRecordResponse, u16>,
) -> bool {
    match body {
        Some(req) => r matches Ok(resp) && create_record_post(req, resp),
        None => r matches Err(status) && status == STATUS_BAD_REQUEST,
    }
}

/// The create-record endpoint, given the decoded body where decoding
/// succeeded and `None` where it did not. A malformed body yields a client
/// error, never a server error.
pub fn create_record_endpoint(body: Option<CreateRecordRequest>) -> (r: Result<
    CreateRecordResponse,
    u16,
>)
    ensures
        create_record_endpoint_post(body, r),
        r matches Err(status) ==> is_client_error(status) && !is_server_error(status),
{
    match body {
        Some(req) => Ok(create_record(&req)),
        None => Err(STATUS_BAD_REQUEST),
    }
}

/// What the get-record endpoint returns: a successful response exactly when
/// the query was decoded, and the bad-request status exactly when it was not.
pub open spec fn get_record_endpoint_post(
    query: Option<GetRecordQuery>,
    r: Result<GetRecordResponse, u16>,
) -> bool {
    match query {
        Some(q) => r matches Ok(resp) && get_record_post(q, resp),
        None => r matches Err(status) && status == STATUS_BAD_REQUEST,
    }
}

/// The get-record endpoint, given the decoded query where decoding succeeded
/// and `None` where a required parameter was missing. A malformed query
/// yields a client error, never a server error.
pub fn get_record_endpoint(query: Option<GetRecordQuery>) -> (r: Result<GetRecordResponse, u16>)
    ensures
        get_record_endpoint_post(query, r),
        r matches Err(status) ==> is_client_error(status) && !is_server_error(status),
{
    match query {
        Some(q) => Ok(get_record(&q)),
        None => Err(STATUS_BAD_REQUEST),
    }
}

/// Assembles the get-record query from the three query parameters, present
/// or not: the query exists exactly when all three parameters are present.
pub open spec fn query_parse_post(
    repo: Option<String>,
    collection: Option<String>,
    rkey: Option<String>,
    r: Option<GetRecordQuery>,
) -> bool {
    match (repo, collection, rkey) {
        (Some(rp), Some(c), Some(k)) => r matches Some(q) && q.repo@ == rp@ && q.collection@
            == c@ && q.rkey@ == k@,
        _ => r is None,
    }
}

/// Builds a get-record query from its parameters, returning `None` as soon
/// as any required parameter is missing.
pub fn parse_get_record_query(
    repo: Option<String>,
    collection: Option<String>,
    rkey: Option<String>,
) -> (r: Option<GetRecordQuery>)
    ensures
        query_parse_post(repo, collection, rkey, r),
{
    match (repo, collection, rkey) {
        (Some(rp), Some(c), Some(k)) => Some(
            GetRecordQuery { repo: rp, collection: c, rkey: k },
        ),
        _ => None,
    }
}

} // verus!
