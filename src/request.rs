use vstd::prelude::*;

use crate::incoming::incoming_body;
use crate::stream::{ByteStream, EndModel, StreamModel};

verus! {

/// A request as the wrapped service receives it.
pub struct InternalRequest {
    pub method: String,
    pub uri: String,
    /// Header entries in the host's order; a repeated name stays a separate entry.
    pub headers: Vec<(String, String)>,
    pub body: ByteStream,
}

/// `req` is the translation of a host request with these parts: method and URL
/// verbatim, the header entries in the same order with duplicates kept, and a body
/// stream that is empty and completed where the host request has no body, open
/// where it has one.
pub open spec fn translated_from(
    req: InternalRequest,
    method: Seq<char>,
    url: Seq<char>,
    headers: Seq<(String, String)>,
    has_body: bool,
) -> bool {
    &&& req.method@ == method
    &&& req.uri@ == url
    &&& req.headers@ == headers
    &&& req.body@ == (if has_body {
        StreamModel { chunks: Seq::empty(), end: EndModel::Open }
    } else {
        StreamModel { chunks: Seq::empty(), end: EndModel::Completed }
    })
}

/// How many entries of `headers` carry the name `key`.
pub open spec fn header_count(headers: Seq<(String, String)>, key: Seq<char>) -> nat {
    headers.filter(|h: (String, String)| h.0@ == key).len()
}

/// Builds the internal request from the parts of a host request.
pub fn from_fetch_request(
    method: String,
    url: String,
    headers: Vec<(String, String)>,
    has_body: bool,
) -> (r: InternalRequest)
    ensures
        translated_from(r, method@, url@, headers@, has_body),
{
    let mut out: Vec<(String, String)> = Vec::new();
    let mut i: usize = 0;
    while i < headers.len()
        invariant
            i <= headers.len(),
            out@ == headers@.subrange(0, i as int),
        decreases headers.len() - i,
    {
        let (k, v) = &headers[i];
        out.push((k.clone(), v.clone()));
        proof {
            assert(out@ =~= headers@.subrange(0, i + 1));
        }
        i = i + 1;
    }
    proof {
        assert(out@ =~= headers@);
    }
    InternalRequest { method, uri: url, headers: out, body: incoming_body(has_body) }
}

} // verus!
