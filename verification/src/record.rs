//! The record kept of one inbound request.

use crate::name_map::{text_of, NameMap};
use vstd::prelude::*;

verus! {

/// The network address a request came from.
#[derive(Clone, Copy, Debug, PartialEq, Eq)]
pub enum IpAddress {
    V4([u8; 4]),
    V6([u16; 8]),
}

impl IpAddress {
    /// The IPv4 loopback address, `127.0.0.1`.
    pub open spec fn spec_loopback() -> IpAddress {
        IpAddress::V4([127u8, 0u8, 0u8, 1u8])
    }

    /// The IPv4 loopback address, `127.0.0.1`.
    pub fn loopback() -> (ip: IpAddress)
        ensures
            ip == Self::spec_loopback(),
    {
        IpAddress::V4([127u8, 0u8, 0u8, 1u8])
    }
}

/// One captured request.
#[derive(Debug)]
pub struct CapturedRequest {
    /// Time of capture, as text.
    pub received_at: String,
    /// Request method, in upper case.
    pub method: String,
    /// Request path, without the query.
    pub path: String,
    /// The query, where the request had one.
    pub query_string: Option<String>,
    /// How many header lines the request carried, repeated names included.
    pub header_count: usize,
    /// Where the request came from.
    pub client_ip: IpAddress,
    /// The headers by name; of a repeated name the last value.
    pub headers: NameMap<String>,
    /// The decoded body, or a note on why it could not be decoded.
    pub body: String,
}

/// What a `CapturedRequest` holds, as mathematical values.
pub struct RecordView {
    pub received_at: Seq<char>,
    pub method: Seq<char>,
    pub path: Seq<char>,
    pub query_string: Option<Seq<char>>,
    pub header_count: nat,
    pub client_ip: IpAddress,
    pub headers: Map<Seq<char>, Seq<char>>,
    pub body: Seq<char>,
}

/// The text of an optional string.
pub open spec fn opt_text(s: Option<String>) -> Option<Seq<char>> {
    match s {
        Some(t) => Some(t@),
        None => None,
    }
}

impl View for CapturedRequest {
    type V = RecordView;

    open spec fn view(&self) -> RecordView {
        RecordView {
            received_at: self.received_at@,
            method: self.method@,
            path: self.path@,
            query_string: opt_text(self.query_string),
            header_count: self.header_count as nat,
            client_ip: self.client_ip,
            headers: text_of(self.headers@),
            body: self.body@,
        }
    }
}

impl CapturedRequest {
    /// A copy that holds the same values.
    pub fn duplicate(&self) -> (copy: CapturedRequest)
        ensures
            copy@ == self@,
    {
        let query_string = match &self.query_string {
            Some(q) => Some(q.clone()),
            None => None,
        };
        CapturedRequest {
            received_at: self.received_at.clone(),
            method: self.method.clone(),
            path: self.path.clone(),
            query_string,
            header_count: self.header_count,
            client_ip: self.client_ip,
            headers: self.headers.duplicate(),
            body: self.body.clone(),
        }
    }
}

} // verus!
