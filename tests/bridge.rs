use axum_js_fetch::adapter::respond;
use axum_js_fetch::incoming::{bridge_reads, forward_read, incoming_body, HostRead};
use axum_js_fetch::outgoing::{drain_to_host, outgoing_step, pull_outgoing, HostPull};
use axum_js_fetch::request::from_fetch_request;
use axum_js_fetch::response::{
    create_default_error, to_fetch_response, value_is_encodable, HostResponse,
    InternalResponse,
};
use axum_js_fetch::stream::{BodyPoll, ByteStream};

fn chunk(s: &str) -> HostRead {
    HostRead::Chunk(s.as_bytes().to_vec())
}

fn pairs(items: &[(&str, &str)]) -> Vec<(String, String)> {
    items.iter().map(|(k, v)| (k.to_string(), v.to_string())).collect()
}

fn text_of(r: HostResponse<ByteStream>) -> (u16, String) {
    match r {
        HostResponse::Text(status, body) => (status, body),
        HostResponse::Streaming(_) => panic!("expected a text response"),
    }
}

#[test]
fn empty_body_is_completed_with_no_chunks() {
    let mut req = from_fetch_request("GET".to_string(), "/".to_string(), Vec::new(), false);
    let drained = drain_to_host(&mut req.body);
    assert!(drained.bytes.is_empty());
    assert!(matches!(drained.last, HostPull::End));
}

#[test]
fn body_present_starts_open() {
    let mut body = incoming_body(true);
    assert!(body.is_open());
    assert!(matches!(pull_outgoing(&mut body), HostPull::Pending));
}

#[test]
fn chunks_arrive_in_host_order() {
    let reads = vec![chunk("ab"), chunk("c"), chunk(""), chunk("def"), HostRead::Done];
    let mut body = bridge_reads(reads);
    let mut seen: Vec<Vec<u8>> = Vec::new();
    loop {
        match pull_outgoing(&mut body) {
            HostPull::Chunk(c) => seen.push(c),
            HostPull::End => break,
            _ => panic!("unexpected pull"),
        }
    }
    assert_eq!(seen, vec![b"ab".to_vec(), b"c".to_vec(), b"".to_vec(), b"def".to_vec()]);
}

#[test]
fn chunks_concatenate_when_drained() {
    let reads = vec![chunk("Hello"), chunk(", "), chunk("host"), HostRead::Done];
    let mut body = bridge_reads(reads);
    let drained = drain_to_host(&mut body);
    assert_eq!(drained.bytes, b"Hello, host".to_vec());
    assert!(matches!(drained.last, HostPull::End));
}

#[test]
fn malformed_chunk_fails_stream_once() {
    let reads = vec![chunk("a"), HostRead::Malformed, chunk("b"), HostRead::Done];
    let mut body = bridge_reads(reads);
    let drained = drain_to_host(&mut body);
    assert_eq!(drained.bytes, b"a".to_vec());
    match drained.last {
        HostPull::Error(e) => assert_eq!(e, "body chunk is not a byte array"),
        _ => panic!("expected an error"),
    }
    assert!(matches!(pull_outgoing(&mut body), HostPull::End));
}

#[test]
fn reads_without_end_leave_stream_open() {
    let mut body = bridge_reads(vec![chunk("x")]);
    let drained = drain_to_host(&mut body);
    assert_eq!(drained.bytes, b"x".to_vec());
    assert!(matches!(drained.last, HostPull::Pending));
}

#[test]
fn forward_read_stops_after_end() {
    let mut body = incoming_body(true);
    assert!(forward_read(&mut body, chunk("1")));
    assert!(!forward_read(&mut body, HostRead::Done));
    assert!(!forward_read(&mut body, chunk("2")));
    let drained = drain_to_host(&mut body);
    assert_eq!(drained.bytes, b"1".to_vec());
    assert!(matches!(drained.last, HostPull::End));
}

#[test]
fn closed_stream_refuses_chunks() {
    let mut s = ByteStream::open();
    assert!(s.push(b"a".to_vec()));
    s.fail("broken".to_string());
    assert!(!s.push(b"b".to_vec()));
    s.complete();
    assert!(matches!(s.poll_next(), BodyPoll::Data(ref d) if d == b"a"));
    assert!(matches!(s.poll_next(), BodyPoll::Error(ref e) if e == "broken"));
    assert!(matches!(s.poll_next(), BodyPoll::End));
}

#[test]
fn streaming_echo() {
    let chunks = vec![b"Hello".to_vec(), b" ".to_vec(), b"world.".to_vec()];
    let resp = InternalResponse { status: 200, headers: Vec::new(), body: ByteStream::from_chunks(chunks) };
    match respond(Ok(resp)) {
        HostResponse::Streaming(mut r) => {
            assert_eq!(r.status, 200);
            let drained = drain_to_host(&mut r.body);
            assert_eq!(String::from_utf8(drained.bytes).unwrap(), "Hello world.");
            assert!(matches!(drained.last, HostPull::End));
        }
        HostResponse::Text(..) => panic!("expected a streaming response"),
    }
}

#[test]
fn header_fidelity_keeps_duplicates() {
    let headers = pairs(&[("accept", "a"), ("x-dup", "1"), ("content-type", "text/plain"), ("x-dup", "2")]);
    let req = from_fetch_request("post".to_string(), "https://h.test/p?q=1".to_string(), headers.clone(), true);
    assert_eq!(req.method, "post");
    assert_eq!(req.uri, "https://h.test/p?q=1");
    assert_eq!(req.headers, headers);
    assert_eq!(req.headers.iter().filter(|(k, _)| k == "x-dup").count(), 2);
}

#[test]
fn service_failure_maps_to_500() {
    let r: HostResponse<ByteStream> = respond(Err("service exploded".to_string()));
    assert_eq!(text_of(r), (500, "service exploded".to_string()));
}

#[test]
fn invalid_header_value_falls_back_to_500() {
    let resp = InternalResponse {
        status: 200,
        headers: vec![("ok".to_string(), b"fine".to_vec()), ("bad".to_string(), b"a\nb".to_vec())],
        body: ByteStream::empty(),
    };
    let r = to_fetch_response(resp);
    assert_eq!(text_of(r), (500, "failed to convert header to a str".to_string()));
}

#[test]
fn valid_headers_pass_through() {
    let resp = InternalResponse {
        status: 201,
        headers: vec![("x-a".to_string(), b"1".to_vec()), ("x-a".to_string(), b"tab\there".to_vec())],
        body: ByteStream::empty(),
    };
    match to_fetch_response(resp) {
        HostResponse::Streaming(r) => {
            assert_eq!(r.status, 201);
            assert_eq!(r.headers.len(), 2);
            assert_eq!(r.headers[1].1, b"tab\there".to_vec());
        }
        HostResponse::Text(..) => panic!("expected a streaming response"),
    }
}

#[test]
fn host_construction_failure_falls_back_to_500() {
    let r: HostResponse<ByteStream> = create_default_error("TypeError: invalid header".to_string());
    assert_eq!(text_of(r), (500, "TypeError: invalid header".to_string()));
}

#[test]
fn header_value_byte_rules() {
    assert!(value_is_encodable(&b"visible ~ ascii\t".to_vec()));
    assert!(!value_is_encodable(&vec![127u8]));
    assert!(!value_is_encodable(&vec![31u8]));
    assert!(!value_is_encodable(&"caf\u{e9}".as_bytes().to_vec()));
}

#[test]
fn outgoing_step_maps_each_poll() {
    assert!(matches!(outgoing_step(BodyPoll::Pending), HostPull::Pending));
    assert!(matches!(outgoing_step(BodyPoll::End), HostPull::End));
    assert!(matches!(outgoing_step(BodyPoll::Data(vec![1, 2])), HostPull::Chunk(ref d) if d == &vec![1, 2]));
    assert!(matches!(outgoing_step(BodyPoll::NonData), HostPull::Error(ref e) if e == "Not a data frame"));
    assert!(matches!(outgoing_step(BodyPoll::Error("e".to_string())), HostPull::Error(ref e) if e == "e"));
}

#[test]
fn independent_calls_do_not_mix() {
    let mut a = from_fetch_request("GET".to_string(), "/a".to_string(), pairs(&[("x", "a")]), true);
    let mut b = from_fetch_request("GET".to_string(), "/b".to_string(), pairs(&[("x", "b")]), true);
    forward_read(&mut a.body, chunk("a1"));
    forward_read(&mut b.body, chunk("b1"));
    forward_read(&mut a.body, chunk("a2"));
    forward_read(&mut b.body, HostRead::Done);
    forward_read(&mut a.body, HostRead::Done);
    assert_eq!(drain_to_host(&mut a.body).bytes, b"a1a2".to_vec());
    assert_eq!(drain_to_host(&mut b.body).bytes, b"b1".to_vec());
    assert_eq!(a.headers, pairs(&[("x", "a")]));
    assert_eq!(b.headers, pairs(&[("x", "b")]));
}
