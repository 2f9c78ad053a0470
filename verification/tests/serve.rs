use reqsink::capture::InboundRequest;
use reqsink::config::DEFAULT_REQ_LIMIT;
use reqsink::name_map::NameMap;
use reqsink::raw::{ADMIN_TEMPLATE_NAME, RAW_ADMIN_TEMPLATE};
use reqsink::record::IpAddress;
use reqsink::reply::{acknowledgement, rendered_reply, Reply};
use reqsink::routes::{Dispatch, RouteRule, RouteTable, DEFAULT_CONTENT_TYPE};
use reqsink::serve::{
    classify, handle_admin, handle_req, handle_static, start_param, AppContext, Endpoint, Eviction,
};

fn request(method: &str, target: &str, body: &[u8]) -> InboundRequest {
    InboundRequest {
        method: method.to_string(),
        target: target.to_string(),
        headers: Vec::new(),
        remote_addr: None,
        body: body.to_vec(),
    }
}

fn server() -> AppContext {
    AppContext::new(DEFAULT_REQ_LIMIT, None, None)
}

fn respond(app_ctx: &mut AppContext, request: &InboundRequest) -> Reply {
    let handled = handle_req(request, app_ctx).unwrap();
    match handled.dispatch {
        Dispatch::Acknowledge => acknowledgement(),
        Dispatch::Render { template_name, content_type } => {
            rendered_reply(Ok(format!("rendered {}", template_name)), &content_type)
        }
    }
}

fn hook_table(content_type: Option<&str>) -> RouteTable {
    RouteTable::from_rules(vec![RouteRule {
        method: "POST".to_string(),
        route_path: "/hook".to_string(),
        template_name: "T".to_string(),
        content_type: content_type.map(str::to_string),
    }])
}

#[test]
fn basic_response() {
    let request = request("POST", "/api/widgets", b"42");

    let mut server = server();
    let response = respond(&mut server, &request);
    assert_eq!(response.status, 200);
    let c = response.body;
    println!("{:?}", c);
    assert_eq!(c, "OK");
}

#[test]
fn basic_admin_response() {
    let server = server();
    let page = handle_admin("/admin", &server).unwrap();

    let mut tera = tera::Tera::default();
    tera.add_raw_template(ADMIN_TEMPLATE_NAME, RAW_ADMIN_TEMPLATE).unwrap();
    let mut context = tera::Context::new();
    context.insert("next_page", &page.bounds.next_page_start);
    context.insert("reqs", &Vec::<String>::with_capacity(page.window.len()));
    context.insert("req_count", &page.bounds.total_count);
    let rendered = tera.render(ADMIN_TEMPLATE_NAME, &context).map_err(|e| e.to_string());

    let response = rendered_reply(rendered, DEFAULT_CONTENT_TYPE);
    assert_eq!(response.status, 200);
    let c = response.body;
    assert!(c.contains("Welcome to reqsink"))
}

#[test]
fn basic_response_is_recorded() {
    let mut server = server();
    let handled = handle_req(&request("post", "/api/widgets?a=1", b"42"), &mut server).unwrap();
    assert_eq!(handled.record.method, "POST");
    assert_eq!(handled.record.path, "/api/widgets");
    assert_eq!(handled.record.query_string.as_deref(), Some("a=1"));
    assert_eq!(handled.record.body, "42");
    assert_eq!(handled.record.header_count, 0);
    assert_eq!(handled.record.client_ip, IpAddress::V4([127, 0, 0, 1]));
    assert!(matches!(handled.eviction, Eviction::NotNeeded));
    assert_eq!(server.req_cache.size(), 1);
    let held = server.req_cache.snapshot_window(0, 1);
    assert_eq!(held[0].path, "/api/widgets");
    assert_eq!(held[0].body, "42");
    assert_eq!(held[0].received_at, handled.record.received_at);
}

#[test]
fn unresolvable_target_is_refused_and_changes_nothing() {
    let mut server = server();
    assert!(handle_req(&request("GET", "http://[", b""), &mut server).is_none());
    assert_eq!(server.req_cache.size(), 0);
    assert!(handle_admin("http://[", &server).is_none());
    assert!(handle_static("http://[", &NameMap::new()).is_none());
}

#[test]
fn route_with_other_method_is_acknowledged() {
    let mut server = AppContext::new(DEFAULT_REQ_LIMIT, Some(hook_table(None)), None);
    let response = respond(&mut server, &request("GET", "/hook", b""));
    assert_eq!(response.status, 200);
    assert_eq!(response.body, "OK");
    assert!(response.headers.is_empty());
}

#[test]
fn route_with_same_method_renders_with_default_content_type() {
    let mut server = AppContext::new(DEFAULT_REQ_LIMIT, Some(hook_table(None)), None);
    let response = respond(&mut server, &request("POST", "/hook", b""));
    assert_eq!(response.status, 200);
    assert_eq!(response.body, "rendered T");
    assert_eq!(
        response.headers,
        vec![("Content-Type".to_string(), "text/html; charset=UTF-8".to_string())]
    );
}

#[test]
fn route_with_same_method_renders_with_configured_content_type() {
    let table = hook_table(Some("application/json"));
    let mut server = AppContext::new(DEFAULT_REQ_LIMIT, Some(table), None);
    let response = respond(&mut server, &request("post", "/hook", b""));
    assert_eq!(response.body, "rendered T");
    assert_eq!(
        response.headers,
        vec![("Content-Type".to_string(), "application/json".to_string())]
    );
}

#[test]
fn route_is_matched_on_the_path_without_the_query() {
    let mut server = AppContext::new(DEFAULT_REQ_LIMIT, Some(hook_table(None)), None);
    let response = respond(&mut server, &request("POST", "/hook?x=1", b""));
    assert_eq!(response.body, "rendered T");
    let response = respond(&mut server, &request("POST", "/hook/more", b""));
    assert_eq!(response.body, "OK");
}

#[test]
fn overflow_without_store_drops_the_batch() {
    let mut server = AppContext::new(20, None, None);
    for i in 0..20 {
        let handled = handle_req(&request("GET", &format!("/r{}", i), b""), &mut server).unwrap();
        assert!(matches!(handled.eviction, Eviction::NotNeeded));
    }
    assert_eq!(server.req_cache.size(), 20);
    let handled = handle_req(&request("GET", "/r20", b""), &mut server).unwrap();
    match handled.eviction {
        Eviction::Discarded { count } => assert_eq!(count, 2),
        other => panic!("{:?}", other),
    }
    assert_eq!(server.req_cache.size(), 19);
    let held = server.req_cache.snapshot_window(0, 19);
    assert_eq!(held[0].path, "/r2");
    assert_eq!(held[18].path, "/r20");
}

#[test]
fn overflow_with_store_hands_the_oldest_over() {
    let mut server = AppContext::new(10, None, Some("sink.db".to_string()));
    for i in 0..10 {
        handle_req(&request("GET", &format!("/r{}", i), b""), &mut server).unwrap();
    }
    let handled = handle_req(&request("GET", "/r10", b""), &mut server).unwrap();
    match handled.eviction {
        Eviction::Persist { batch, destination } => {
            assert_eq!(destination, "sink.db");
            assert_eq!(batch.len(), 1);
            assert_eq!(batch[0].path, "/r0");
        }
        other => panic!("{:?}", other),
    }
    assert_eq!(server.req_cache.size(), 10);
    assert!(server.req_cache.size() <= server.req_cache.capacity());
}

#[test]
fn admin_reads_start_from_the_query() {
    let mut server = server();
    for i in 0..25 {
        handle_req(&request("GET", &format!("/r{}", i), b""), &mut server).unwrap();
    }
    let page = handle_admin("/admin", &server).unwrap();
    assert_eq!((page.bounds.window_start, page.bounds.end), (15, 25));
    assert_eq!(page.bounds.next_page_start, 10);
    assert_eq!(page.bounds.total_count, 25);
    assert_eq!(page.window.len(), 10);
    assert_eq!(page.window[0].path, "/r15");
    assert_eq!(page.window[9].path, "/r24");

    let page = handle_admin("/admin?start=20", &server).unwrap();
    assert_eq!((page.bounds.window_start, page.bounds.end), (0, 5));
    assert_eq!(page.bounds.next_page_start, 30);
    assert_eq!(page.window.len(), 5);
    assert_eq!(page.window[4].path, "/r4");

    let page = handle_admin("/admin?start=25", &server).unwrap();
    assert_eq!((page.bounds.window_start, page.bounds.end), (0, 0));
    assert!(page.window.is_empty());

    let page = handle_admin("/admin?start=soon", &server).unwrap();
    assert_eq!((page.bounds.window_start, page.bounds.end), (15, 25));
    let page = handle_admin("/admin?start=-5", &server).unwrap();
    assert_eq!((page.bounds.window_start, page.bounds.end), (15, 25));
    assert_eq!(page.bounds.next_page_start, 10);
    assert_eq!(server.req_cache.size(), 25);
}

#[test]
fn start_param_takes_the_last_start() {
    assert_eq!(start_param(None), 0);
    assert_eq!(start_param(Some("")), 0);
    assert_eq!(start_param(Some("start=7")), 7);
    assert_eq!(start_param(Some("a=1&start=7&b=2")), 7);
    assert_eq!(start_param(Some("start=7&start=9")), 9);
    assert_eq!(start_param(Some("start")), 0);
    assert_eq!(start_param(Some("Start=7")), 0);
}

#[test]
fn static_asset_is_found_by_last_segment() {
    let mut assets: NameMap<String> = NameMap::new();
    assets.insert("app.js".to_string(), "let a = 1;".to_string());
    let reply = handle_static("/__static__/js/app.js?v=2", &assets).unwrap();
    assert_eq!(reply.status, 200);
    assert_eq!(reply.body, "let a = 1;");
    assert_eq!(
        reply.headers,
        vec![
            ("Content-Type".to_string(), "text/javascript; charset=UTF-8".to_string()),
            ("Cache-Control".to_string(), "public, max-age=604800, immutable".to_string()),
        ]
    );
    let reply = handle_static("/__static__/other.js", &assets).unwrap();
    assert_eq!(reply.status, 200);
    assert_eq!(reply.body, "I couldn't find that.");
    assert!(reply.headers.is_empty());
}

#[test]
fn static_asset_needs_path_segments() {
    let assets: NameMap<String> = NameMap::new();
    assert!(handle_static("mailto:someone", &assets).is_none());
}

#[test]
fn paths_are_classified() {
    assert_eq!(classify("/admin"), Endpoint::Admin);
    assert_eq!(classify("/admin/"), Endpoint::Capture);
    assert_eq!(classify("/__static__/app.js"), Endpoint::Static);
    assert_eq!(classify("/__static__"), Endpoint::Static);
    assert_eq!(classify("/__static"), Endpoint::Capture);
    assert_eq!(classify("/"), Endpoint::Capture);
    assert_eq!(classify(""), Endpoint::Capture);
}

#[test]
fn failed_rendering_is_a_server_error() {
    let reply = rendered_reply(Err("no such template".to_string()), DEFAULT_CONTENT_TYPE);
    assert_eq!(reply.status, 500);
    assert_eq!(reply.body, "Internal Server Error");
    assert!(reply.headers.is_empty());
}
