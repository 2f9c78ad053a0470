//! The responses the sink gives.

use crate::body::pairs_text;
use vstd::prelude::*;
use vstd::string::StringExecFns;

verus! {

/// A response: its status, its body and its header lines.
#[derive(Debug)]
pub struct Reply {
    pub status: u16,
    pub body: String,
    pub headers: Vec<(String, String)>,
}

/// What a `Reply` holds, as mathematical values.
pub struct ReplyView {
    pub status: u16,
    pub body: Seq<char>,
    pub headers: Seq<(Seq<char>, Seq<char>)>,
}

impl View for Reply {
    type V = ReplyView;

    open spec fn view(&self) -> ReplyView {
        ReplyView { status: self.status, body: self.body@, headers: pairs_text(self.headers@) }
    }
}

/// Status of a successful response.
pub const STATUS_OK: u16 = 200;

/// Status of the response to a request whose template could not be rendered.
pub const STATUS_SERVER_ERROR: u16 = 500;

/// The generic acknowledgement: success, a plain body, no content type.
pub open spec fn acknowledged() -> ReplyView {
    ReplyView { status: 200, body: "OK"@, headers: Seq::empty() }
}

/// The response that carries a rendering: success, the text as body, the content type;
/// or, where rendering failed, a server error.
pub open spec fn rendering(rendered: Result<Seq<char>, Seq<char>>, content_type: Seq<char>) -> ReplyView {
    match rendered {
        Ok(text) => ReplyView {
            status: 200,
            body: text,
            headers: seq![("Content-Type"@, content_type)],
        },
        Err(_) => ReplyView { status: 500, body: "Internal Server Error"@, headers: Seq::empty() },
    }
}

/// The response to a request for a static asset: its text as a script that may be
/// cached, or a note that there is no such asset.
pub open spec fn asset_found(asset: Option<Seq<char>>) -> ReplyView {
    match asset {
        Some(text) => ReplyView {
            status: 200,
            body: text,
            headers: seq![
                ("Content-Type"@, "text/javascript; charset=UTF-8"@),
                ("Cache-Control"@, "public, max-age=604800, immutable"@),
            ],
        },
        None => ReplyView { status: 200, body: "I couldn't find that."@, headers: Seq::empty() },
    }
}

/// The generic acknowledgement.
pub fn acknowledgement() -> (reply: Reply)
    ensures
        reply@ == acknowledged(),
{
    let reply = Reply { status: STATUS_OK, body: String::from_str("OK"), headers: Vec::new() };
    assert(pairs_text(reply.headers@) =~= Seq::empty());
    reply
}

/// The response that carries the outcome of rendering a template.
pub fn rendered_reply(rendered: Result<String, String>, content_type: &str) -> (reply: Reply)
    ensures
        reply@ == rendering(crate::body::text_result(rendered), content_type@),
{
    match rendered {
        Ok(text) => {
            let mut headers: Vec<(String, String)> = Vec::new();
            headers.push((String::from_str("Content-Type"), String::from_str(content_type)));
            assert(pairs_text(headers@) =~= seq![("Content-Type"@, content_type@)]);
            Reply { status: STATUS_OK, body: text, headers }
        },
        Err(_) => {
            let reply = Reply {
                status: STATUS_SERVER_ERROR,
                body: String::from_str("Internal Server Error"),
                headers: Vec::new(),
            };
            assert(pairs_text(reply.headers@) =~= Seq::empty());
            reply
        },
    }
}

/// The response to a request for a static asset.
pub fn asset_reply(asset: Option<&String>) -> (reply: Reply)
    ensures
        reply@ == asset_found(
            match asset {
                Some(text) => Some(text@),
                None => None,
            },
        ),
{
    match asset {
        Some(text) => {
            let mut headers: Vec<(String, String)> = Vec::new();
            headers.push(
                (String::from_str("Content-Type"), String::from_str("text/javascript; charset=UTF-8")),
            );
            headers.push(
                (
                    String::from_str("Cache-Control"),
                    String::from_str("public, max-age=604800, immutable"),
                ),
            );
            assert(pairs_text(headers@) =~= seq![
                ("Content-Type"@, "text/javascript; charset=UTF-8"@),
                ("Cache-Control"@, "public, max-age=604800, immutable"@),
            ]);
            Reply { status: STATUS_OK, body: text.clone(), headers }
        },
        None => {
            let reply = Reply {
                status: STATUS_OK,
                body: String::from_str("I couldn't find that."),
                headers: Vec::new(),
            };
            assert(pairs_text(reply.headers@) =~= Seq::empty());
            reply
        },
    }
}

} // verus!
