//! Construction of `at://` record URIs from their three components.

use vstd::prelude::*;
use vstd::string::StringExecFns;

verus! {

/// The URI identifying a record: `at://<repo>/<collection>/<rkey>`.
pub open spec fn at_uri_view(repo: Seq<char>, collection: Seq<char>, rkey: Seq<char>) -> Seq<char> {
    "at://"@ + repo + "/"@ + collection + "/"@ + rkey
}

/// Builds the `at://<repo>/<collection>/<rkey>` URI, byte for byte.
pub fn make_at_uri(repo: &str, collection: &str, rkey: &str) -> (uri: String)
    ensures
        uri@ == at_uri_view(repo@, collection@, rkey@),
{
    let mut uri = "at://".to_owned();
    uri.append(repo);
    uri.append("/");
    uri.append(collection);
    uri.append("/");
    uri.append(rkey);
    proof {
        assert(uri@ =~= at_uri_view(repo@, collection@, rkey@));
    }
    uri
}

} // verus!
