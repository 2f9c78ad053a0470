//! Building the record of an inbound request.

use crate::body::{body_encoding, decode_body, decoded_body, encoding_of, pairs_text};
use crate::clock::{is_timestamp, now_text};
use crate::name_map::{collected, text_of, NameMap};
use crate::record::{CapturedRequest, IpAddress, RecordView};
use crate::target::{resolve_target, resolved, Target, BASE_URL};
use crate::text::{to_uppercase, uppercase};
use vstd::prelude::*;

verus! {

/// An inbound request as the transport hands it over.
#[derive(Debug)]
pub struct InboundRequest {
    /// The method, as sent.
    pub method: String,
    /// The request target, as it stands on the request line.
    pub target: String,
    /// The header lines in the order sent, each a name and a value.
    pub headers: Vec<(String, String)>,
    /// The peer's address, where the transport knows it.
    pub remote_addr: Option<IpAddress>,
    /// The body as received.
    pub body: Vec<u8>,
}

/// The address recorded for a request: the peer's, or the loopback address where the
/// transport knows none.
pub open spec fn client_ip_of(remote_addr: Option<IpAddress>) -> IpAddress {
    match remote_addr {
        Some(ip) => ip,
        None => IpAddress::spec_loopback(),
    }
}

/// The address to record for a request.
pub fn client_ip(remote_addr: Option<IpAddress>) -> (ip: IpAddress)
    ensures
        ip == client_ip_of(remote_addr),
{
    match remote_addr {
        Some(ip) => ip,
        None => IpAddress::loopback(),
    }
}

/// Gathers header lines by name; of a repeated name the last value stays.
pub fn headers_to_map(raw_headers: &[(String, String)]) -> (headers: NameMap<String>)
    ensures
        text_of(headers@) == collected(pairs_text(raw_headers@)),
{
    let mut headers: NameMap<String> = NameMap::new();
    let ghost all = pairs_text(raw_headers@);
    let mut i: usize = 0;
    assert(text_of(headers@) =~= collected(all.take(0)));
    while i < raw_headers.len()
        invariant
            i <= raw_headers.len(),
            all == pairs_text(raw_headers@),
            text_of(headers@) == collected(all.take(i as int)),
        decreases raw_headers.len() - i,
    {
        let ghost before = headers@;
        let name = raw_headers[i].0.clone();
        let value = raw_headers[i].1.clone();
        headers.insert(name, value);
        proof {
            assert(all.take(i + 1).drop_last() =~= all.take(i as int));
            assert(all.take(i + 1).last() == (name@, value@));
            assert(text_of(headers@) =~= text_of(before).insert(name@, value@));
        }
        i += 1;
    }
    assert(all.take(all.len() as int) =~= all);
    headers
}

/// Decodes the body of `request` as its headers announce it. A body that cannot be
/// decoded is recorded as a note on the failure, which is never empty.
pub fn get_request_body(request: &InboundRequest) -> (body: String)
    ensures
        body@ == decoded_body(encoding_of(pairs_text(request.headers@)), request.body@),
{
    let encoding = body_encoding(request.headers.as_slice());
    decode_body(encoding, request.body.as_slice())
}

/// What is recorded of `request` when its target resolves to `target`, at the time
/// written as `received_at`.
pub open spec fn recorded(
    request: InboundRequest,
    target: (Seq<char>, Option<Seq<char>>),
    received_at: Seq<char>,
) -> RecordView {
    RecordView {
        received_at,
        method: uppercase(request.method@),
        path: target.0,
        query_string: target.1,
        header_count: request.headers@.len(),
        client_ip: client_ip_of(request.remote_addr),
        headers: collected(pairs_text(request.headers@)),
        body: decoded_body(encoding_of(pairs_text(request.headers@)), request.body@),
    }
}

/// What is recorded of `request` at the time written as `received_at`, or `None` where
/// its target does not resolve.
pub open spec fn captured(request: InboundRequest, received_at: Seq<char>) -> Option<RecordView> {
    match resolved(BASE_URL@, request.target@) {
        Some(target) => Some(recorded(request, target, received_at)),
        None => None,
    }
}

/// Builds the record of `request`, given what its target resolved to and the time of
/// capture as text. The body is decoded as the headers announce it; a body that cannot
/// be decoded is recorded as a note on the failure.
pub fn assemble(request: &InboundRequest, target: Target, received_at: String) -> (record:
    CapturedRequest)
    ensures
        record@ == recorded(
            *request,
            (target.path@, crate::record::opt_text(target.query)),
            received_at@,
        ),
{
    let body = get_request_body(request);
    CapturedRequest {
        received_at,
        method: to_uppercase(request.method.as_str()),
        path: target.path,
        query_string: target.query,
        header_count: request.headers.len(),
        client_ip: client_ip(request.remote_addr),
        headers: headers_to_map(request.headers.as_slice()),
        body,
    }
}

/// Captures `request` at the time written as `received_at`. Gives `None` exactly where
/// the request target does not resolve to a URL.
pub fn capture_at(request: &InboundRequest, received_at: String) -> (record: Option<
    CapturedRequest,
>)
    ensures
        match record {
            Some(r) => captured(*request, received_at@) == Some(r@),
            None => captured(*request, received_at@).is_none(),
        },
{
    match resolve_target(request.target.as_str()) {
        Some(target) => Some(assemble(request, target, received_at)),
        None => None,
    }
}

/// Captures `request` at the present time. Gives `None` exactly where the request
/// target does not resolve to a URL.
pub fn capture(request: &InboundRequest) -> (record: Option<CapturedRequest>)
    ensures
        match record {
            Some(r) => captured(*request, r@.received_at) == Some(r@) && is_timestamp(
                r@.received_at,
            ),
            None => resolved(BASE_URL@, request.target@).is_none(),
        },
{
    capture_at(request, now_text())
}

} // verus!
