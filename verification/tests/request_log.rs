use reqsink::name_map::NameMap;
use reqsink::paginate::{admin_page, page_window};
use reqsink::record::{CapturedRequest, IpAddress};
use reqsink::request_log::RequestLog;

fn record(path: &str) -> CapturedRequest {
    CapturedRequest {
        received_at: "Thu, 1 Jan 1970 00:00:00 +0000".to_string(),
        method: "GET".to_string(),
        path: path.to_string(),
        query_string: None,
        header_count: 0,
        client_ip: IpAddress::loopback(),
        headers: NameMap::new(),
        body: String::new(),
    }
}

fn filled(capacity: usize, count: usize) -> RequestLog {
    let mut log = RequestLog::new(capacity);
    for i in 0..count {
        log.append(record(&format!("/{}", i)));
    }
    log
}

fn paths(records: &[CapturedRequest]) -> Vec<&str> {
    records.iter().map(|r| r.path.as_str()).collect()
}

#[test]
fn append_keeps_arrival_order() {
    let log = filled(100, 3);
    assert_eq!(log.size(), 3);
    assert_eq!(log.capacity(), 100);
    assert_eq!(paths(log.snapshot_window(0, 3)), vec!["/0", "/1", "/2"]);
}

#[test]
fn append_alone_does_not_evict() {
    let log = filled(2, 5);
    assert_eq!(log.size(), 5);
}

#[test]
fn snapshot_window_clamps_its_indices() {
    let log = filled(100, 5);
    assert_eq!(paths(log.snapshot_window(1, 3)), vec!["/1", "/2"]);
    assert_eq!(paths(log.snapshot_window(3, 99)), vec!["/3", "/4"]);
    assert_eq!(paths(log.snapshot_window(4, 2)), Vec::<&str>::new());
    assert_eq!(paths(log.snapshot_window(7, 9)), Vec::<&str>::new());
    assert_eq!(paths(log.snapshot_window(0, 0)), Vec::<&str>::new());
    assert_eq!(log.size(), 5);
}

#[test]
fn drain_oldest_takes_from_the_head() {
    let mut log = filled(100, 5);
    let batch = log.drain_oldest(2);
    assert_eq!(paths(&batch), vec!["/0", "/1"]);
    assert_eq!(paths(log.snapshot_window(0, 9)), vec!["/2", "/3", "/4"]);
    let none = log.drain_oldest(0);
    assert!(none.is_empty());
    assert_eq!(log.size(), 3);
}

#[test]
fn drain_oldest_beyond_size_empties_the_log() {
    let mut log = filled(100, 3);
    let batch = log.drain_oldest(7);
    assert_eq!(paths(&batch), vec!["/0", "/1", "/2"]);
    assert_eq!(log.size(), 0);
    assert!(log.drain_oldest(1).is_empty());
}

#[test]
fn store_evicts_a_tenth_of_the_capacity() {
    let mut log = RequestLog::new(30);
    for i in 0..30 {
        assert!(log.store(record(&format!("/{}", i))).is_none());
        assert!(log.size() <= log.capacity());
    }
    let evicted = log.store(record("/30")).unwrap();
    assert_eq!(paths(&evicted), vec!["/0", "/1", "/2"]);
    assert_eq!(log.size(), 28);
    assert_eq!(paths(log.snapshot_window(0, 1)), vec!["/3"]);
    assert_eq!(paths(log.snapshot_window(27, 28)), vec!["/30"]);
}

#[test]
fn store_never_exceeds_capacity() {
    let mut log = RequestLog::new(10);
    for i in 0..100 {
        log.store(record(&format!("/{}", i)));
        assert!(log.size() <= 10);
    }
    assert_eq!(paths(log.snapshot_window(9, 10)), vec!["/99"]);
}

#[test]
fn store_with_capacity_under_ten_evicts_nothing() {
    let mut log = RequestLog::new(5);
    for i in 0..5 {
        assert!(log.store(record(&format!("/{}", i))).is_none());
    }
    let evicted = log.store(record("/5")).unwrap();
    assert!(evicted.is_empty());
    assert_eq!(log.size(), 6);
}

#[test]
fn page_of_the_newest_ten() {
    let page = page_window(25, 0);
    assert_eq!((page.window_start, page.end), (15, 25));
    assert_eq!(page.next_page_start, 10);
    assert_eq!(page.total_count, 25);
}

#[test]
fn page_near_the_oldest() {
    let page = page_window(25, 20);
    assert_eq!((page.window_start, page.end), (0, 5));
    assert_eq!(page.next_page_start, 30);
}

#[test]
fn page_past_the_oldest_is_empty() {
    for start in [25u32, 26, 1000, u32::MAX] {
        let page = page_window(25, start);
        assert_eq!((page.window_start, page.end), (0, 0));
        assert_eq!(page.next_page_start, start as u64 + 10);
        assert_eq!(page.total_count, 25);
    }
    let page = page_window(0, 0);
    assert_eq!((page.window_start, page.end), (0, 0));
}

#[test]
fn admin_page_shows_oldest_first_within_the_window() {
    let log = filled(100, 25);
    let page = admin_page(&log, 10);
    assert_eq!((page.bounds.window_start, page.bounds.end), (5, 15));
    assert_eq!(paths(page.window), vec!["/5", "/6", "/7", "/8", "/9", "/10", "/11", "/12", "/13", "/14"]);
    let page = admin_page(&log, 30);
    assert!(page.window.is_empty());
    assert_eq!(log.size(), 25);
}

#[test]
fn duplicate_holds_the_same_values() {
    let mut first = record("/copy");
    first.headers.insert("Host".to_string(), "example".to_string());
    first.query_string = Some("a=b".to_string());
    let copy = first.duplicate();
    assert_eq!(copy.path, "/copy");
    assert_eq!(copy.query_string.as_deref(), Some("a=b"));
    assert_eq!(copy.headers.get("Host").map(String::as_str), Some("example"));
    assert_eq!(copy.received_at, first.received_at);
    assert_eq!(copy.client_ip, first.client_ip);
}
