//! The path and query that a request target resolves to.

use crate::record::opt_text;
use vstd::prelude::*;

verus! {

/// The base against which request targets are resolved.
pub const BASE_URL: &'static str = "http://reqsink.local/";

/// The path of a resolved target and its query, where it has one.
#[derive(Debug)]
pub struct Target {
    pub path: String,
    pub query: Option<String>,
}

/// The path and query of the URL that `raw` resolves to against `base`, or `None` where
/// either is not a URL, as the URL parser reads them.
pub uninterp spec fn resolved(base: Seq<char>, raw: Seq<char>) -> Option<(Seq<char>, Option<Seq<char>>)>;

/// What an optional target holds, as mathematical values.
pub open spec fn target_view(target: Option<Target>) -> Option<(Seq<char>, Option<Seq<char>>)> {
    match target {
        Some(t) => Some((t.path@, opt_text(t.query))),
        None => None,
    }
}

/// `url::Url::parse` on `base`, then `Url::join` with `raw`, then `Url::path` and
/// `Url::query` of the result. The contract says only that the outcome is a function of
/// the two texts; a failure of `parse` or `join` gives `None`.
#[verifier::external_body]
fn join_target(base: &str, raw: &str) -> (target: Option<Target>)
    ensures
        target_view(target) == resolved(base@, raw@),
{
    match url::Url::parse(base) {
        Ok(root) => match root.join(raw) {
            Ok(url) => Some(Target { path: url.path().to_string(), query: url.query().map(str::to_string) }),
            Err(_) => None,
        },
        Err(_) => None,
    }
}

/// Resolves a request target, as it stands on the request line, to its path and query.
pub fn resolve_target(raw: &str) -> (target: Option<Target>)
    ensures
        target_view(target) == resolved(BASE_URL@, raw@),
{
    join_target(BASE_URL, raw)
}

} // verus!
