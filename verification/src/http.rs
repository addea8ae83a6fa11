use vstd::prelude::*;

use vstd::string::StringExecFns;

verus! {

/// One outbound form-encoded POST, described in full so that the transport
/// layer has nothing left to decide.
pub struct FormPostRequest {
    pub url: String,
    pub headers: Vec<(String, String)>,
    pub params: Vec<(String, String)>,
}

/// One outbound GET with its headers.
pub struct GetRequest {
    pub url: String,
    pub headers: Vec<(String, String)>,
}

/// Whether an HTTP status code reports success.
pub open spec fn spec_status_success(status: u16) -> bool {
    200 <= status < 300
}

pub fn status_success(status: u16) -> (r: bool)
    ensures
        r == spec_status_success(status),
{
    200 <= status && status < 300
}

/// An owned key/value pair for a query or form body.
pub(crate) fn pair(k: &str, v: &str) -> (r: (String, String))
    ensures
        r.0@ == k@ && r.1@ == v@,
{
    (String::from_str(k), String::from_str(v))
}

} // verus!
