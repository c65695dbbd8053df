//! The one HTTP call that a request becomes: where it goes, with which
//! headers, and with which JSON body.
use vstd::prelude::*;
use vstd::string::StringExecFns;
use crate::json::Json;

verus! {

/// A POST request with a JSON body, ready to be sent.
#[derive(Debug, PartialEq, Eq)]
pub struct HttpRequest {
    pub url: String,
    pub headers: Vec<(String, String)>,
    pub body: Json,
}

/// The names and values of a run of headers.
pub open spec fn headers_view(headers: Seq<(String, String)>) -> Seq<(Seq<char>, Seq<char>)> {
    Seq::new(headers.len(), |i: int| (headers[i].0@, headers[i].1@))
}

/// Appends the header `name: value`.
pub fn push_header(headers: &mut Vec<(String, String)>, name: &str, value: String)
    ensures
        headers_view(final(headers)@) == headers_view(old(headers)@).push((name@, value@)),
{
    let key = String::from_str(name);
    headers.push((key, value));
    assert(headers_view(headers@) =~= headers_view(old(headers)@).push((name@, value@)));
}

} // verus!
