//! Purity of the endpoints: no handler reads or writes shared state, so a
//! response is a function of its own request alone. Stated here as proof
//! functions over the endpoint contracts: any two calls whose inputs hold
//! the same text are answered the same way.

use vstd::prelude::*;
use crate::handlers::{
    create_record_endpoint_post, get_record_endpoint_post, health_post,
};
use crate::messages::{
    CreateRecordRequest, CreateRecordResponse, GetRecordQuery, GetRecordResponse, HealthResponse,
};

verus! {

/// Two create-record bodies holding the same text.
pub open spec fn create_request_view_eq(a: CreateRecordRequest, b: CreateRecordRequest) -> bool {
    &&& a.repo@ == b.repo@
    &&& a.collection@ == b.collection@
    &&& a.record@ == b.record@
}

/// Two decode outcomes of a create-record body holding the same text.
pub open spec fn create_body_view_eq(
    b1: Option<CreateRecordRequest>,
    b2: Option<CreateRecordRequest>,
) -> bool {
    match (b1, b2) {
        (Some(a), Some(b)) => create_request_view_eq(a, b),
        (None, None) => true,
        _ => false,
    }
}

/// Two create-record results holding the same text and status.
pub open spec fn create_result_view_eq(
    r1: Result<CreateRecordResponse, u16>,
    r2: Result<CreateRecordResponse, u16>,
) -> bool {
    match (r1, r2) {
        (Ok(a), Ok(b)) => a.uri@ == b.uri@ && a.cid@ == b.cid@,
        (Err(e1), Err(e2)) => e1 == e2,
        _ => false,
    }
}

/// Two get-record queries holding the same text.
pub open spec fn get_query_view_eq(a: GetRecordQuery, b: GetRecordQuery) -> bool {
    &&& a.repo@ == b.repo@
    &&& a.collection@ == b.collection@
    &&& a.rkey@ == b.rkey@
}

/// Two decode outcomes of a get-record query holding the same text.
pub open spec fn get_query_opt_view_eq(
    q1: Option<GetRecordQuery>,
    q2: Option<GetRecordQuery>,
) -> bool {
    match (q1, q2) {
        (Some(a), Some(b)) => get_query_view_eq(a, b),
        (None, None) => true,
        _ => false,
    }
}

/// Two get-record results holding the same text and status.
pub open spec fn get_result_view_eq(
    r1: Result<GetRecordResponse, u16>,
    r2: Result<GetRecordResponse, u16>,
) -> bool {
    match (r1, r2) {
        (Ok(a), Ok(b)) => a.uri@ == b.uri@ && a.cid@ == b.cid@ && a.value@ == b.value@,
        (Err(e1), Err(e2)) => e1 == e2,
        _ => false,
    }
}

/// The health endpoint is pure: any two responses meeting its contract hold
/// the same text, whatever else happens in the process.
pub proof fn lemma_health_pure(r1: HealthResponse, r2: HealthResponse)
    requires
        health_post(r1),
        health_post(r2),
    ensures
        r1.status@ == r2.status@,
        r1.version@ == r2.version@,
        r1.service@ == r2.service@,
{
}

/// The create-record endpoint is pure: two calls whose decoded bodies hold
/// the same text are answered by results holding the same text and status.
/// In particular, concurrent requests share nothing that could drive their
/// answers apart.
pub proof fn lemma_create_record_endpoint_pure(
    b1: Option<CreateRecordRequest>,
    b2: Option<CreateRecordRequest>,
    r1: Result<CreateRecordResponse, u16>,
    r2: Result<CreateRecordResponse, u16>,
)
    requires
        create_body_view_eq(b1, b2),
        create_record_endpoint_post(b1, r1),
        create_record_endpoint_post(b2, r2),
    ensures
        create_result_view_eq(r1, r2),
{
}

/// The get-record endpoint is pure: two calls whose decoded queries hold the
/// same text are answered by results holding the same text and status.
pub proof fn lemma_get_record_endpoint_pure(
    q1: Option<GetRecordQuery>,
    q2: Option<GetRecordQuery>,
    r1: Result<GetRecordResponse, u16>,
    r2: Result<GetRecordResponse, u16>,
)
    requires
        get_query_opt_view_eq(q1, q2),
        get_record_endpoint_post(q1, r1),
        get_record_endpoint_post(q2, r2),
    ensures
        get_result_view_eq(r1, r2),
{
}

} // verus!
