use reqsink::body::{body_encoding, body_text, decode_body, BodyEncoding, GZIP_NOTE, TEXT_NOTE};
use reqsink::capture::{
    assemble, capture, capture_at, client_ip, get_request_body, headers_to_map, InboundRequest,
};
use reqsink::clock::{now_text, timestamp, ClockReading, MAX_SECONDS};
use reqsink::record::IpAddress;
use reqsink::target::{resolve_target, Target};
use std::io::Write;

fn gzip(plain: &[u8]) -> Vec<u8> {
    let mut encoder = flate2::write::GzEncoder::new(Vec::new(), flate2::Compression::default());
    encoder.write_all(plain).unwrap();
    encoder.finish().unwrap()
}

fn header(name: &str, value: &str) -> (String, String) {
    (name.to_string(), value.to_string())
}

fn inbound(headers: Vec<(String, String)>, body: Vec<u8>) -> InboundRequest {
    InboundRequest {
        method: "put".to_string(),
        target: "/things/1?force=yes".to_string(),
        headers,
        remote_addr: Some(IpAddress::V4([10, 1, 2, 3])),
        body,
    }
}

#[test]
fn gzip_body_decodes_to_the_plaintext() {
    let plain = "hello, sink \u{1F600}";
    let request = inbound(vec![header("Content-Encoding", "gzip")], gzip(plain.as_bytes()));
    let record = capture(&request).unwrap();
    assert_eq!(record.body, plain);
}

#[test]
fn gzip_is_announced_in_any_case_of_letters() {
    let payload = gzip(b"abc");
    for (name, value) in [
        ("content-encoding", "gzip"),
        ("CONTENT-ENCODING", "GZIP"),
        ("Content-Encoding", "GZip"),
    ] {
        let request = inbound(vec![header("Host", "h"), header(name, value)], payload.clone());
        assert_eq!(body_encoding(&request.headers), BodyEncoding::Gzip);
        assert_eq!(capture(&request).unwrap().body, "abc");
    }
}

#[test]
fn first_content_encoding_header_decides() {
    let headers = vec![header("Content-Encoding", "br"), header("Content-Encoding", "gzip")];
    assert_eq!(body_encoding(&headers), BodyEncoding::Identity);
    let headers = vec![header("Content-Encoding", "gzip"), header("Content-Encoding", "br")];
    assert_eq!(body_encoding(&headers), BodyEncoding::Gzip);
    assert_eq!(body_encoding(&[]), BodyEncoding::Identity);
    assert_eq!(body_encoding(&[header("Content-Encoding", "gzip ")]), BodyEncoding::Identity);
    assert_eq!(body_encoding(&[header("Content-Encodin", "gzip")]), BodyEncoding::Identity);
}

#[test]
fn invalid_gzip_body_becomes_a_note() {
    let request = inbound(vec![header("Content-Encoding", "gzip")], b"this is no gzip".to_vec());
    let record = capture(&request).unwrap();
    assert!(!record.body.is_empty());
    assert!(record.body.starts_with("Could not parse gzipped request body: "));
    assert!(record.body.len() > GZIP_NOTE.len());
    assert_eq!(record.path, "/things/1");
}

#[test]
fn gzip_of_bytes_that_are_no_text_becomes_a_note() {
    let body = decode_body(BodyEncoding::Gzip, &gzip(&[0xff, 0xfe, 0x00]));
    assert!(body.starts_with(GZIP_NOTE));
}

#[test]
fn plain_body_is_read_as_text() {
    let record = capture(&inbound(vec![], "gr\u{fc}n".as_bytes().to_vec())).unwrap();
    assert_eq!(record.body, "gr\u{fc}n");
    assert_eq!(decode_body(BodyEncoding::Identity, b""), "");
}

#[test]
fn plain_body_that_is_no_text_becomes_a_note() {
    let record = capture(&inbound(vec![], vec![0x66, 0xff, 0x6f])).unwrap();
    assert!(record.body.starts_with("Could not parse request body - is this a binary format? "));
    assert!(record.body.len() > TEXT_NOTE.len());
    assert!(record.body.contains("valid UTF-8"));
}

#[test]
fn gzip_body_without_the_header_is_not_unpacked() {
    let record = capture(&inbound(vec![], gzip(b"abc"))).unwrap();
    assert!(record.body.starts_with(TEXT_NOTE));
}

#[test]
fn body_text_puts_the_note_before_the_account() {
    assert_eq!(body_text(BodyEncoding::Gzip, Ok("text".to_string())), "text");
    assert_eq!(
        body_text(BodyEncoding::Gzip, Err("broken".to_string())),
        "Could not parse gzipped request body: broken"
    );
    assert_eq!(
        body_text(BodyEncoding::Identity, Err("broken".to_string())),
        "Could not parse request body - is this a binary format? broken"
    );
    assert_eq!(body_text(BodyEncoding::Identity, Err(String::new())), TEXT_NOTE);
}

#[test]
fn repeated_headers_count_and_collapse() {
    let headers = vec![
        header("Accept", "text/html"),
        header("X-Tag", "one"),
        header("Accept", "application/json"),
        header("X-Tag", "two"),
        header("x-tag", "small"),
    ];
    let record = capture(&inbound(headers, Vec::new())).unwrap();
    assert_eq!(record.header_count, 5);
    assert_eq!(record.headers.len(), 3);
    assert_eq!(record.headers.get("Accept").map(String::as_str), Some("application/json"));
    assert_eq!(record.headers.get("X-Tag").map(String::as_str), Some("two"));
    assert_eq!(record.headers.get("x-tag").map(String::as_str), Some("small"));
    assert!(record.headers.get("Host").is_none());
}

#[test]
fn headers_to_map_of_nothing_is_empty() {
    let map = headers_to_map(&[]);
    assert_eq!(map.len(), 0);
    assert!(map.as_slice().is_empty());
}

#[test]
fn capture_records_what_the_request_holds() {
    let request = inbound(vec![header("Host", "sink")], b"payload".to_vec());
    let record = capture_at(&request, "Tue, 1 Jul 2003 10:52:37 +0000".to_string()).unwrap();
    assert_eq!(record.received_at, "Tue, 1 Jul 2003 10:52:37 +0000");
    assert_eq!(record.method, "PUT");
    assert_eq!(record.path, "/things/1");
    assert_eq!(record.query_string.as_deref(), Some("force=yes"));
    assert_eq!(record.header_count, 1);
    assert_eq!(record.client_ip, IpAddress::V4([10, 1, 2, 3]));
    assert_eq!(record.body, "payload");
}

#[test]
fn capture_without_query_records_none() {
    let mut request = inbound(vec![], Vec::new());
    request.target = "/plain".to_string();
    request.remote_addr = None;
    let record = capture(&request).unwrap();
    assert_eq!(record.path, "/plain");
    assert!(record.query_string.is_none());
    assert_eq!(record.client_ip, IpAddress::V4([127, 0, 0, 1]));
    assert!(!record.received_at.is_empty());
}

#[test]
fn capture_refuses_a_target_that_is_no_url() {
    let mut request = inbound(vec![], Vec::new());
    request.target = "http://[".to_string();
    assert!(capture(&request).is_none());
    assert!(capture_at(&request, String::new()).is_none());
}

#[test]
fn assemble_takes_the_target_as_given() {
    let request = inbound(vec![], b"x".to_vec());
    let target = Target { path: "/elsewhere".to_string(), query: None };
    let record = assemble(&request, target, "now".to_string());
    assert_eq!(record.path, "/elsewhere");
    assert!(record.query_string.is_none());
    assert_eq!(record.method, "PUT");
    assert_eq!(record.received_at, "now");
}

#[test]
fn client_ip_falls_back_to_loopback() {
    assert_eq!(client_ip(None), IpAddress::V4([127, 0, 0, 1]));
    assert_eq!(client_ip(None), IpAddress::loopback());
    let v6 = IpAddress::V6([0, 0, 0, 0, 0, 0, 0, 1]);
    assert_eq!(client_ip(Some(v6)), v6);
}

#[test]
fn target_resolves_to_path_and_query() {
    let target = resolve_target("/a/b%20c?x=1&y=2#frag").unwrap();
    assert_eq!(target.path, "/a/b%20c");
    assert_eq!(target.query.as_deref(), Some("x=1&y=2"));
    let target = resolve_target("").unwrap();
    assert_eq!(target.path, "/");
    assert!(target.query.is_none());
    let target = resolve_target("/p?").unwrap();
    assert_eq!(target.query.as_deref(), Some(""));
    assert!(resolve_target("http://[").is_none());
}

#[test]
fn timestamp_is_written_as_rfc2822() {
    let epoch = timestamp(Some(ClockReading { seconds: 0, nanos: 0 }));
    assert_eq!(epoch, "Thu, 1 Jan 1970 00:00:00 +0000");
    let later = timestamp(Some(ClockReading { seconds: 1057056757, nanos: 999_999_999 }));
    assert_eq!(later, "Tue, 1 Jul 2003 10:52:37 +0000");
}

#[test]
fn timestamp_is_held_to_what_the_format_can_write() {
    assert_eq!(timestamp(None), "Thu, 1 Jan 1970 00:00:00 +0000");
    let last = "Fri, 31 Dec 9999 23:59:59 +0000";
    assert_eq!(timestamp(Some(ClockReading { seconds: MAX_SECONDS, nanos: 0 })), last);
    assert_eq!(timestamp(Some(ClockReading { seconds: MAX_SECONDS + 1, nanos: 0 })), last);
    assert_eq!(timestamp(Some(ClockReading { seconds: u64::MAX, nanos: u32::MAX })), last);
}

#[test]
fn now_text_ends_in_the_utc_offset() {
    let now = now_text();
    assert!(now.ends_with(" +0000"));
    assert_ne!(now, "Thu, 1 Jan 1970 00:00:00 +0000");
}

#[test]
fn request_body_follows_the_headers() {
    let packed = inbound(vec![header("content-encoding", "GZIP")], gzip(b"packed"));
    assert_eq!(get_request_body(&packed), "packed");
    let plain = inbound(vec![header("Content-Type", "gzip")], b"plain".to_vec());
    assert_eq!(get_request_body(&plain), "plain");
}
