//! The handlers: what the sink does with a request for each kind of endpoint.

use crate::capture::{capture, captured, InboundRequest};
use crate::clock::is_timestamp;
use crate::name_map::NameMap;
use crate::paginate::{admin_page, page_begin, page_end, AdminPage};
use crate::query::{get_param_map, param_map, parse_start, start_of};
use crate::record::{opt_text, CapturedRequest, RecordView};
use crate::reply::{asset_found, asset_reply, Reply, ReplyView};
use crate::request_log::{
    batch_len, lemma_views_of_stored, oldest, overflows, stored, views_of, RequestLog,
};
use crate::routes::{dispatch, dispatched, routes_view, Dispatch, RouteTable};
use crate::target::{resolve_target, resolved, BASE_URL};
use crate::text::{begins_with, last_segment, last_segment_of, starts_with};
use vstd::prelude::*;

verus! {

/// The kinds of endpoint.
#[derive(Clone, Copy, Debug, PartialEq, Eq, Structural)]
pub enum Endpoint {
    /// The admin page.
    Admin,
    /// A static asset.
    Static,
    /// Anything else: the request is captured and answered.
    Capture,
}

/// Path of the admin page.
pub const ADMIN_PATH: &'static str = "/admin";

/// Prefix of the paths of static assets.
pub const STATIC_PREFIX: &'static str = "/__static__";

/// The kind of endpoint that a path belongs to.
pub open spec fn endpoint_of(path: Seq<char>) -> Endpoint {
    if path == ADMIN_PATH@ {
        Endpoint::Admin
    } else if begins_with(path, STATIC_PREFIX@) {
        Endpoint::Static
    } else {
        Endpoint::Capture
    }
}

/// Tells which kind of endpoint a path belongs to.
pub fn classify(path: &str) -> (endpoint: Endpoint)
    ensures
        endpoint == endpoint_of(path@),
{
    if path.to_owned() == ADMIN_PATH.to_owned() {
        Endpoint::Admin
    } else if starts_with(path, STATIC_PREFIX) {
        Endpoint::Static
    } else {
        Endpoint::Capture
    }
}

/// What the handlers work on: the log, the routes, and where evicted records go.
pub struct AppContext {
    /// The captured requests still held in memory.
    pub req_cache: RequestLog,
    /// The configured routes, where there are any.
    pub user_templates: Option<RouteTable>,
    /// Where evicted records are stored; `None` where they are dropped.
    pub sqlite: Option<String>,
}

impl AppContext {
    /// A context with an empty log of the given capacity.
    pub fn new(req_limit: usize, user_templates: Option<RouteTable>, sqlite: Option<String>) -> (ctx:
        AppContext)
        ensures
            ctx.req_cache.entries().len() == 0,
            ctx.req_cache.spec_capacity() == req_limit,
            ctx.user_templates == user_templates,
            ctx.sqlite == sqlite,
    {
        AppContext { req_cache: RequestLog::new(req_limit), user_templates, sqlite }
    }
}

/// What became of the log's overflow after a request was stored.
#[derive(Debug)]
pub enum Eviction {
    /// The log was within its capacity; nothing left it.
    NotNeeded,
    /// A batch left the log and was dropped, no store being configured.
    Discarded { count: usize },
    /// A batch left the log and is to be stored at `destination`.
    Persist { batch: Vec<CapturedRequest>, destination: String },
}

/// What an `Eviction` holds, as mathematical values.
pub enum EvictionView {
    NotNeeded,
    Discarded { count: nat },
    Persist { batch: Seq<RecordView>, destination: Seq<char> },
}

impl View for Eviction {
    type V = EvictionView;

    open spec fn view(&self) -> EvictionView {
        match self {
            Eviction::NotNeeded => EvictionView::NotNeeded,
            Eviction::Discarded { count } => EvictionView::Discarded { count: *count as nat },
            Eviction::Persist { batch, destination } => EvictionView::Persist {
                batch: views_of(batch@),
                destination: destination@,
            },
        }
    }
}

/// What becomes of a batch that left the log: it goes to the store where one is
/// configured and is dropped where none is.
pub open spec fn routed(evicted: Option<Seq<RecordView>>, sqlite: Option<Seq<char>>) -> EvictionView {
    match evicted {
        None => EvictionView::NotNeeded,
        Some(batch) => match sqlite {
            Some(destination) => EvictionView::Persist { batch, destination },
            None => EvictionView::Discarded { count: batch.len() },
        },
    }
}

/// The batch that leaves a log when one more record is stored, if one does.
pub open spec fn evicted_by<T>(entries: Seq<T>, capacity: nat, record: T) -> Option<Seq<T>> {
    if overflows(entries.len(), capacity) {
        Some(oldest(entries.push(record), batch_len(capacity)))
    } else {
        None
    }
}

/// Decides what becomes of a batch that left the log.
pub fn route_evicted(evicted: Option<Vec<CapturedRequest>>, sqlite: &Option<String>) -> (eviction:
    Eviction)
    ensures
        eviction@ == routed(
            match evicted {
                Some(batch) => Some(views_of(batch@)),
                None => None,
            },
            opt_text(*sqlite),
        ),
{
    match evicted {
        None => Eviction::NotNeeded,
        Some(batch) => match sqlite {
            Some(destination) => Eviction::Persist { batch, destination: destination.clone() },
            None => Eviction::Discarded { count: batch.len() },
        },
    }
}

/// The outcome of handling one captured request.
#[derive(Debug)]
pub struct Handled {
    /// The record of the request.
    pub record: CapturedRequest,
    /// What became of the log's overflow.
    pub eviction: Eviction,
    /// How the request is to be answered.
    pub dispatch: Dispatch,
}

/// What handling the record `record` does to a context and gives back: the record joins
/// the log, the log sheds a batch where it overflows, and the routes choose the answer.
pub open spec fn handles(
    before: AppContext,
    after: AppContext,
    record: RecordView,
    outcome: Handled,
) -> bool {
    let capacity = before.req_cache.spec_capacity();
    &&& outcome.record@ == record
    &&& after.req_cache@ == stored(before.req_cache@, capacity, record)
    &&& after.req_cache.spec_capacity() == capacity
    &&& after.user_templates == before.user_templates
    &&& after.sqlite == before.sqlite
    &&& outcome.eviction@ == routed(
        evicted_by(before.req_cache@, capacity, record),
        opt_text(before.sqlite),
    )
    &&& outcome.dispatch@ == dispatched(
        record.method,
        record.path,
        routes_view(before.user_templates),
    )
}

/// Handles a captured request: stores it in the log, sheds the oldest tenth of the
/// capacity where the log overflows, and chooses the answer.
pub fn handle_captured(record: CapturedRequest, app_ctx: &mut AppContext) -> (outcome: Handled)
    ensures
        handles(*old(app_ctx), *final(app_ctx), record@, outcome),
{
    let copy = record.duplicate();
    proof {
        lemma_views_of_stored(
            app_ctx.req_cache.entries(),
            app_ctx.req_cache.spec_capacity(),
            copy,
        );
    }
    let evicted = app_ctx.req_cache.store(copy);
    let eviction = route_evicted(evicted, &app_ctx.sqlite);
    let choice = dispatch(&record, &app_ctx.user_templates);
    Handled { record, eviction, dispatch: choice }
}

/// Handles an inbound request: captures it at the present time and handles the record.
/// Gives `None`, and leaves the context as it was, exactly where the request target does
/// not resolve to a URL.
pub fn handle_req(request: &InboundRequest, app_ctx: &mut AppContext) -> (outcome: Option<Handled>)
    ensures
        match outcome {
            Some(h) => captured(*request, h.record@.received_at) == Some(h.record@)
                && is_timestamp(h.record@.received_at) && handles(
                *old(app_ctx),
                *final(app_ctx),
                h.record@,
                h,
            ),
            None => resolved(BASE_URL@, request.target@).is_none() && *final(app_ctx) == *old(
                app_ctx,
            ),
        },
{
    match capture(request) {
        Some(record) => Some(handle_captured(record, app_ctx)),
        None => None,
    }
}

/// The `start` that a query asks for: what its last `start` parameter writes, or 0 where
/// it has none or the value is no number in range.
pub open spec fn requested_start(query: Option<Seq<char>>) -> nat {
    if param_map(query).contains_key("start"@) {
        start_of(param_map(query)["start"@])
    } else {
        0
    }
}

/// Reads the `start` that a query asks for.
pub fn start_param(query: Option<&str>) -> (start: u32)
    ensures
        start == requested_start(
            match query {
                Some(q) => Some(q@),
                None => None,
            },
        ),
{
    let params = get_param_map(query);
    match params.get("start") {
        Some(value) => parse_start(value.as_str()),
        None => 0,
    }
}

/// Whether `page` is the admin page of `log` that begins `start` records back from
/// the newest.
pub open spec fn shows(page: AdminPage, log: RequestLog, start: nat) -> bool {
    &&& page.bounds.end == page_end(log.entries().len(), start)
    &&& page.bounds.window_start == page_begin(log.entries().len(), start)
    &&& page.bounds.next_page_start == start + 10
    &&& page.bounds.total_count == log.entries().len()
    &&& page.window@ == log.entries().subrange(
        page.bounds.window_start as int,
        page.bounds.end as int,
    )
}

/// Handles a request for the admin page: reads `start` from the query of the target
/// and cuts the page out of the log. Gives `None` exactly where the target does not
/// resolve to a URL.
pub fn handle_admin<'a>(target: &str, app_ctx: &'a AppContext) -> (page: Option<AdminPage<'a>>)
    ensures
        match resolved(BASE_URL@, target@) {
            Some(parts) => page.is_some() && shows(
                page.unwrap(),
                app_ctx.req_cache,
                requested_start(parts.1),
            ),
            None => page.is_none(),
        },
{
    match resolve_target(target) {
        Some(parts) => {
            let query = match &parts.query {
                Some(q) => Some(q.as_str()),
                None => None,
            };
            let start = start_param(query);
            Some(admin_page(&app_ctx.req_cache, start))
        },
        None => None,
    }
}

/// The response to a request for the asset that a path names by its last segment.
pub open spec fn asset_for(path: Seq<char>, assets: Map<Seq<char>, String>) -> Option<ReplyView> {
    match last_segment_of(path) {
        Some(name) => Some(
            asset_found(
                if assets.contains_key(name) {
                    Some(assets[name]@)
                } else {
                    None
                },
            ),
        ),
        None => None,
    }
}

/// Handles a request for a static asset: looks up the last segment of the target's path
/// among `assets`. Gives `None` exactly where the target does not resolve to a URL with
/// path segments.
pub fn handle_static(target: &str, assets: &NameMap<String>) -> (reply: Option<Reply>)
    ensures
        match resolved(BASE_URL@, target@) {
            Some(parts) => match reply {
                Some(r) => asset_for(parts.0, assets@) == Some(r@),
                None => asset_for(parts.0, assets@).is_none(),
            },
            None => reply.is_none(),
        },
{
    match resolve_target(target) {
        Some(parts) => match last_segment(parts.path.as_str()) {
            Some(name) => Some(asset_reply(assets.get(name))),
            None => None,
        },
        None => None,
    }
}

} // verus!
