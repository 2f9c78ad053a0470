//! Decoding of request bodies into text.

use crate::text::{eq_ignore_ascii_case, same_ignoring_ascii_case};
use std::io::Read;
use vstd::prelude::*;
use vstd::string::StringExecFns;
use vstd::utf8::{decode_utf8, valid_utf8};

verus! {

/// How a request body is encoded.
#[derive(Clone, Copy, Debug, PartialEq, Eq, Structural)]
pub enum BodyEncoding {
    /// As a gzip stream.
    Gzip,
    /// Not at all: the bytes are the text.
    Identity,
}

/// The texts of a list of name-value pairs.
pub open spec fn pairs_text(pairs: Seq<(String, String)>) -> Seq<(Seq<char>, Seq<char>)> {
    Seq::new(pairs.len(), |i: int| (pairs[i].0@, pairs[i].1@))
}

/// The value of the first header named `Content-Encoding`, in any case of letters.
pub open spec fn content_encoding(headers: Seq<(Seq<char>, Seq<char>)>) -> Option<Seq<char>>
    decreases headers.len(),
{
    if headers.len() == 0 {
        None
    } else if same_ignoring_ascii_case(headers[0].0, "Content-Encoding"@) {
        Some(headers[0].1)
    } else {
        content_encoding(headers.drop_first())
    }
}

/// The body encoding that a request's headers announce: gzip where the first
/// `Content-Encoding` header says `gzip` in any case of letters, otherwise none.
pub open spec fn encoding_of(headers: Seq<(Seq<char>, Seq<char>)>) -> BodyEncoding {
    match content_encoding(headers) {
        Some(value) => if same_ignoring_ascii_case(value, "gzip"@) {
            BodyEncoding::Gzip
        } else {
            BodyEncoding::Identity
        },
        None => BodyEncoding::Identity,
    }
}

/// Reads the body encoding from a request's headers.
pub fn body_encoding(headers: &[(String, String)]) -> (encoding: BodyEncoding)
    ensures
        encoding == encoding_of(pairs_text(headers@)),
{
    let ghost all = pairs_text(headers@);
    let mut i: usize = 0;
    assert(all.skip(0) =~= all);
    while i < headers.len()
        invariant
            i <= headers.len(),
            all == pairs_text(headers@),
            content_encoding(all.skip(i as int)) == content_encoding(all),
        decreases headers.len() - i,
    {
        let ghost rest = all.skip(i as int);
        assert(rest[0] == all[i as int]);
        assert(rest.drop_first() =~= all.skip(i + 1));
        if eq_ignore_ascii_case(headers[i].0.as_str(), "Content-Encoding") {
            if eq_ignore_ascii_case(headers[i].1.as_str(), "gzip") {
                return BodyEncoding::Gzip;
            } else {
                return BodyEncoding::Identity;
            }
        }
        i += 1;
    }
    BodyEncoding::Identity
}

/// What a decoding attempt gave, as mathematical values.
pub open spec fn text_result(r: Result<String, String>) -> Result<Seq<char>, Seq<char>> {
    match r {
        Ok(t) => Ok(t@),
        Err(e) => Err(e@),
    }
}

/// The text that a gzip stream unpacks to, or the decoder's account of why it does not
/// unpack to text.
pub uninterp spec fn gunzipped(raw: Seq<u8>) -> Result<Seq<char>, Seq<char>>;

/// The reader's account of why bytes that are not UTF-8 could not be read as text.
pub uninterp spec fn utf8_failure(raw: Seq<u8>) -> Seq<char>;

/// The text that bytes read as, or the reader's account of why they are not text.
pub open spec fn read_as_text(raw: Seq<u8>) -> Result<Seq<char>, Seq<char>> {
    if valid_utf8(raw) {
        Ok(decode_utf8(raw))
    } else {
        Err(utf8_failure(raw))
    }
}

/// `flate2::read::GzDecoder::new` over the bytes, read to the end as text with
/// `read_to_string`. The contract says only that the outcome, the text or the error in
/// its `Debug` form, is a function of the bytes.
#[verifier::external_body]
fn gunzip_text(raw: &[u8]) -> (text: Result<String, String>)
    ensures
        text_result(text) == gunzipped(raw@),
{
    let mut text = String::new();
    match flate2::read::GzDecoder::new(raw).read_to_string(&mut text) {
        Ok(_) => Ok(text),
        Err(e) => Err(format!("{:?}", e)),
    }
}

/// `std::io::Read::read_to_string` on a byte slice. The contract says that it succeeds
/// exactly on valid UTF-8, then with the text that the bytes encode, and that the error,
/// in its `Debug` form, is a function of the bytes.
#[verifier::external_body]
fn read_text(raw: &[u8]) -> (text: Result<String, String>)
    ensures
        match text {
            Ok(t) => valid_utf8(raw@) && t@ == decode_utf8(raw@),
            Err(e) => !valid_utf8(raw@) && e@ == utf8_failure(raw@),
        },
{
    let mut text = String::new();
    let mut source: &[u8] = raw;
    match source.read_to_string(&mut text) {
        Ok(_) => Ok(text),
        Err(e) => Err(format!("{:?}", e)),
    }
}

/// What stands before the decoder's account in the body of a request whose gzip body
/// could not be decoded.
pub const GZIP_NOTE: &'static str = "Could not parse gzipped request body: ";

/// What stands before the reader's account in the body of a request whose plain body
/// could not be read as text.
pub const TEXT_NOTE: &'static str = "Could not parse request body - is this a binary format? ";

/// The note that goes with an encoding.
pub open spec fn note_of(encoding: BodyEncoding) -> Seq<char> {
    match encoding {
        BodyEncoding::Gzip => GZIP_NOTE@,
        BodyEncoding::Identity => TEXT_NOTE@,
    }
}

/// The body that is recorded for a decoding attempt: the text where there is one,
/// otherwise the note of the encoding followed by the account of the failure.
pub open spec fn recorded_body(
    encoding: BodyEncoding,
    decoded: Result<Seq<char>, Seq<char>>,
) -> Seq<char> {
    match decoded {
        Ok(text) => text,
        Err(account) => note_of(encoding) + account,
    }
}

/// The body that is recorded for raw bytes under an encoding.
pub open spec fn decoded_body(encoding: BodyEncoding, raw: Seq<u8>) -> Seq<char> {
    match encoding {
        BodyEncoding::Gzip => recorded_body(encoding, gunzipped(raw)),
        BodyEncoding::Identity => recorded_body(encoding, read_as_text(raw)),
    }
}

/// Turns the outcome of a decoding attempt into the body to record.
pub fn body_text(encoding: BodyEncoding, decoded: Result<String, String>) -> (body: String)
    ensures
        body@ == recorded_body(encoding, text_result(decoded)),
        decoded.is_err() ==> body@.len() > 0,
{
    match decoded {
        Ok(text) => text,
        Err(account) => {
            proof {
                reveal_strlit("Could not parse gzipped request body: ");
                reveal_strlit("Could not parse request body - is this a binary format? ");
            }
            let note = match encoding {
                BodyEncoding::Gzip => GZIP_NOTE,
                BodyEncoding::Identity => TEXT_NOTE,
            };
            String::from_str(note).concat(account.as_str())
        },
    }
}

/// Decodes a request body under the given encoding. A body that cannot be decoded is
/// recorded as a note on the failure; decoding never fails.
pub fn decode_body(encoding: BodyEncoding, raw: &[u8]) -> (body: String)
    ensures
        body@ == decoded_body(encoding, raw@),
        encoding == BodyEncoding::Identity && valid_utf8(raw@) ==> body@ == decode_utf8(raw@),
{
    let decoded = match encoding {
        BodyEncoding::Gzip => gunzip_text(raw),
        BodyEncoding::Identity => read_text(raw),
    };
    body_text(encoding, decoded)
}

} // verus!
