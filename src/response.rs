use vstd::prelude::*;

verus! {

/// A response as the wrapped service produces it; `B` is its body.
pub struct InternalResponse<B> {
    pub status: u16,
    /// Header entries in order; a header value is raw bytes.
    pub headers: Vec<(String, Vec<u8>)>,
    pub body: B,
}

/// What the host response is built from.
pub enum HostResponse<B> {
    /// A streaming response: the service's status, its headers (every value
    /// visible ASCII), and its body, handed to the host through the outgoing bridge.
    Streaming(InternalResponse<B>),
    /// A response with this status and a single text body.
    Text(u16, String),
}

/// The status of every response this library synthesizes for a failure.
pub const ERROR_STATUS: u16 = 500;

/// A byte the host accepts in a header value: visible ASCII or a tab (the rule
/// that http's `HeaderValue::to_str` applies).
pub open spec fn is_visible_ascii(b: u8) -> bool {
    (32 <= b && b < 127) || b == 9
}

pub open spec fn value_encodable(v: Seq<u8>) -> bool {
    forall|i: int| 0 <= i < v.len() ==> is_visible_ascii(#[trigger] v[i])
}

/// Every header value in `headers` can be handed to the host as text.
pub open spec fn headers_encodable(headers: Seq<(String, Vec<u8>)>) -> bool {
    forall|i: int| 0 <= i < headers.len() ==> value_encodable(#[trigger] headers[i].1@)
}

/// The text of the response that replaces one with a header value the host cannot
/// take.
pub open spec fn header_error_message() -> Seq<char> {
    "failed to convert header to a str"@
}

/// Whether a header value can be handed to the host as text.
pub fn value_is_encodable(v: &Vec<u8>) -> (r: bool)
    ensures
        r == value_encodable(v@),
{
    let mut i: usize = 0;
    while i < v.len()
        invariant
            i <= v.len(),
            forall|j: int| 0 <= j < i ==> is_visible_ascii(#[trigger] v@[j]),
        decreases v.len() - i,
    {
        let b = v[i];
        if !((32 <= b && b < 127) || b == 9) {
            return false;
        }
        i = i + 1;
    }
    true
}

/// Whether every header value can be handed to the host as text.
pub fn headers_are_encodable(headers: &Vec<(String, Vec<u8>)>) -> (r: bool)
    ensures
        r == headers_encodable(headers@),
{
    let mut i: usize = 0;
    while i < headers.len()
        invariant
            i <= headers.len(),
            forall|j: int| 0 <= j < i ==> value_encodable(#[trigger] headers@[j].1@),
        decreases headers.len() - i,
    {
        if !value_is_encodable(&headers[i].1) {
            return false;
        }
        i = i + 1;
    }
    true
}

/// The fixed fallback response: status 500 and the error's text as the whole body.
pub fn create_default_error<B>(error: String) -> (r: HostResponse<B>)
    ensures
        r is Text,
        r->Text_0 == ERROR_STATUS,
        r->Text_1@ == error@,
{
    HostResponse::Text(ERROR_STATUS, error)
}

/// Turns the service's response into what the host response is built from. Status,
/// headers and body pass through unchanged; a header value the host cannot take
/// makes the whole response the fallback 500 with the conversion error's text.
pub fn to_fetch_response<B>(resp: InternalResponse<B>) -> (r: HostResponse<B>)
    ensures
        headers_encodable(resp.headers@) ==> r == HostResponse::Streaming(resp),
        !headers_encodable(resp.headers@) ==> r is Text && r->Text_0 == ERROR_STATUS
            && r->Text_1@ == header_error_message(),
{
    if headers_are_encodable(&resp.headers) {
        HostResponse::Streaming(resp)
    } else {
        create_default_error(String::from_str("failed to convert header to a str"))
    }
}

} // verus!
