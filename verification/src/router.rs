//! The routing table of the service: which of the three operations a given
//! method and path pair reaches, if any.

use vstd::prelude::*;
use vstd::string::StrSliceExecFns;

verus! {

/// The three operations the service serves.
#[derive(Clone, Copy, Debug, PartialEq, Eq, Structural)]
pub enum Route {
    /// `GET /health`.
    Health,
    /// `POST /xrpc/com.atproto.repo.createRecord`.
    CreateRecord,
    /// `GET /xrpc/com.atproto.repo.getRecord`.
    GetRecord,
}

/// Path of the health endpoint.
pub open spec fn health_path_view() -> Seq<char> {
    "/health"@
}

/// Path of the create-record endpoint.
pub open spec fn create_record_path_view() -> Seq<char> {
    "/xrpc/com.atproto.repo.createRecord"@
}

/// Path of the get-record endpoint.
pub open spec fn get_record_path_view() -> Seq<char> {
    "/xrpc/com.atproto.repo.getRecord"@
}

/// The routing table: the route a request reaches for a given method and
/// path, and `None` where no route is registered.
pub open spec fn route_view(method: Seq<char>, path: Seq<char>) -> Option<Route> {
    if method == "GET"@ && path == health_path_view() {
        Some(Route::Health)
    } else if method == "POST"@ && path == create_record_path_view() {
        Some(Route::CreateRecord)
    } else if method == "GET"@ && path == get_record_path_view() {
        Some(Route::GetRecord)
    } else {
        None
    }
}

/// Character-for-character equality of two string slices.
pub fn str_eq(a: &str, b: &str) -> (r: bool)
    ensures
        r == (a@ == b@),
{
    let alen = a.unicode_len();
    let blen = b.unicode_len();
    if alen != blen {
        return false;
    }
    let mut i: usize = 0;
    while i < alen
        invariant
            i <= alen,
            alen == a@.len(),
            blen == b@.len(),
            alen == blen,
            forall|j: int| 0 <= j < i ==> a@[j] == b@[j],
        decreases alen - i,
    {
        if a.get_char(i) != b.get_char(i) {
            return false;
        }
        i = i + 1;
    }
    proof {
        assert(a@ =~= b@);
    }
    true
}

/// Matches a request's method and path against the routing table.
pub fn route_for(method: &str, path: &str) -> (r: Option<Route>)
    ensures
        r == route_view(method@, path@),
{
    proof {
        reveal_strlit("GET");
        reveal_strlit("POST");
        reveal_strlit("/health");
        reveal_strlit("/xrpc/com.atproto.repo.createRecord");
        reveal_strlit("/xrpc/com.atproto.repo.getRecord");
        assert("GET"@.len() == 3);
        assert("POST"@.len() == 4);
        assert("/health"@.len() == 7);
        assert("/xrpc/com.atproto.repo.createRecord"@.len() == 35);
        assert("/xrpc/com.atproto.repo.getRecord"@.len() == 32);
    }
    if str_eq(method, "GET") {
        if str_eq(path, "/health") {
            Some(Route::Health)
        } else if str_eq(path, "/xrpc/com.atproto.repo.getRecord") {
            Some(Route::GetRecord)
        } else {
            None
        }
    } else if str_eq(method, "POST") && str_eq(path, "/xrpc/com.atproto.repo.createRecord") {
        Some(Route::CreateRecord)
    } else {
        None
    }
}

/// The path a route is registered under.
pub fn route_path(r: Route) -> (p: &'static str)
    ensures
        r == Route::Health ==> p@ == health_path_view(),
        r == Route::CreateRecord ==> p@ == create_record_path_view(),
        r == Route::GetRecord ==> p@ == get_record_path_view(),
{
    match r {
        Route::Health => "/health",
        Route::CreateRecord => "/xrpc/com.atproto.repo.createRecord",
        Route::GetRecord => "/xrpc/com.atproto.repo.getRecord",
    }
}

} // verus!
