//! The window of the log that one admin page shows.

use crate::record::CapturedRequest;
use crate::request_log::{window, RequestLog};
use vstd::prelude::*;

verus! {

/// Number of records on one page.
pub const PAGE_LEN: usize = 10;

/// Index, counted from the oldest, just past the last record of the page that begins
/// `start` records back from the newest.
pub open spec fn page_end(size: nat, start: nat) -> nat {
    if start >= size {
        0
    } else {
        (size - start) as nat
    }
}

/// Index, counted from the oldest, of the first record of that page.
pub open spec fn page_begin(size: nat, start: nat) -> nat {
    if page_end(size, start) >= 10 {
        (page_end(size, start) - 10) as nat
    } else {
        0
    }
}

/// The bounds of one page and what its navigation needs.
#[derive(Clone, Copy, Debug, PartialEq, Eq, Structural)]
pub struct PageWindow {
    /// Index of the first record shown, counted from the oldest.
    pub window_start: usize,
    /// Index just past the last record shown.
    pub end: usize,
    /// The `start` of the page after this one.
    pub next_page_start: u64,
    /// Number of records in the log.
    pub total_count: usize,
}

/// Computes the page that begins `start` records back from the newest of `size` records.
pub fn page_window(size: usize, start: u32) -> (page: PageWindow)
    ensures
        page.end == page_end(size as nat, start as nat),
        page.window_start == page_begin(size as nat, start as nat),
        page.next_page_start == start + 10,
        page.total_count == size,
        page.window_start <= page.end <= size,
        page.end - page.window_start <= 10,
        start >= size ==> page.end == 0 && page.window_start == 0,
{
    let back: u64 = start as u64;
    let end: usize = if back >= size as u64 { 0 } else { size - start as usize };
    let window_start: usize = if end >= PAGE_LEN { end - PAGE_LEN } else { 0 };
    PageWindow { window_start, end, next_page_start: back + 10, total_count: size }
}

/// One admin page: the records to show, oldest first, and what its navigation needs.
pub struct AdminPage<'a> {
    /// The records of the page.
    pub window: &'a [CapturedRequest],
    /// The bounds the window was cut at.
    pub bounds: PageWindow,
}

/// Cuts the page that begins `start` records back from the newest out of `log`.
pub fn admin_page<'a>(log: &'a RequestLog, start: u32) -> (page: AdminPage<'a>)
    ensures
        page.bounds.end == page_end(log.entries().len(), start as nat),
        page.bounds.window_start == page_begin(log.entries().len(), start as nat),
        page.bounds.next_page_start == start + 10,
        page.bounds.total_count == log.entries().len(),
        page.window@ == log.entries().subrange(
            page.bounds.window_start as int,
            page.bounds.end as int,
        ),
{
    let bounds = page_window(log.size(), start);
    let shown = log.snapshot_window(bounds.window_start, bounds.end);
    AdminPage { window: shown, bounds }
}

} // verus!
