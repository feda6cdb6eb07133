use robotevents::bulk::BulkCollection;
use robotevents::error::Error;
use robotevents::retry::{parse_retry_after, PageAction, PageRetry, Reply, RequestRetry, RetryAction};
use robotevents::schema::{PageMeta, PaginatedResponse};

fn meta(current_page: i32, last_page: i32, per_page: i32, total: i32) -> PageMeta {
    PageMeta {
        current_page,
        first_page_url: String::from("https://example.test/api/v2/teams?page=1"),
        from: None,
        to: None,
        last_page,
        last_page_url: String::new(),
        prev_page_url: None,
        next_page_url: None,
        path: String::from("https://example.test/api/v2/teams"),
        per_page,
        total,
    }
}

fn page(current: i32, last: i32, items: std::ops::Range<u32>) -> PaginatedResponse<u32> {
    PaginatedResponse { meta: meta(current, last, 50, 120), data: items.collect() }
}

fn received<R>(status: u16, hint: Option<&str>, response: R) -> Reply<R> {
    Reply::Received {
        status,
        retry_after: hint.map(|h| h.as_bytes().to_vec()),
        response,
    }
}

/// Runs one request against replies handed out in turn; returns the
/// outcome, the waits asked for and the number of attempts made.
fn run_request<R>(replies: Vec<Reply<R>>) -> (Result<R, Error>, Vec<u64>, u8) {
    let mut retry = RequestRetry::new();
    let mut waits = Vec::new();
    for reply in replies {
        match retry.step(reply) {
            RetryAction::Deliver(r) => return (Ok(r), waits, retry.attempts_made()),
            RetryAction::WaitThenRetry(n) => waits.push(n),
            RetryAction::RetryNow => {}
            RetryAction::Fail(e) => return (Err(e), waits, retry.attempts_made()),
        }
    }
    panic!("the request asked for more attempts than were scripted");
}

#[test]
fn scenario_all_pages_succeed_in_page_order() {
    let mut bulk = BulkCollection::start(page(1, 3, 0..50));
    assert_eq!(bulk.remaining_pages(), vec![2, 3]);
    // page 3 completes before page 2
    bulk.record_page(3, Ok(page(3, 3, 100..120)));
    assert!(!bulk.is_complete());
    bulk.record_page(2, Ok(page(2, 3, 50..100)));
    assert!(bulk.is_complete());
    let items = bulk.finish().unwrap();
    assert_eq!(items.len(), 120);
    assert_eq!(items, (0..120).collect::<Vec<u32>>());
}

#[test]
fn scenario_throttled_once_with_hint() {
    let (out, waits, attempts) =
        run_request(vec![received(429, Some("2"), 0u8), received(200, None, 7u8)]);
    assert_eq!(out, Ok(7));
    assert_eq!(waits, vec![2]);
    assert_eq!(attempts, 2);

    let mut bulk = BulkCollection::start(page(1, 3, 0..50));
    bulk.record_page(2, Ok(page(2, 3, 50..100)));
    bulk.record_page(3, Ok(page(3, 3, 100..120)));
    assert_eq!(bulk.finish().unwrap(), (0..120).collect::<Vec<u32>>());
}

#[test]
fn scenario_throttled_without_hint_every_time() {
    let replies: Vec<Reply<u8>> = (0..5).map(|_| received(429, None, 0u8)).collect();
    let (out, waits, attempts) = run_request(replies);
    assert_eq!(out, Err(Error::MissingRetryHint));
    assert!(waits.is_empty());
    assert_eq!(attempts, 5);

    let mut bulk = BulkCollection::start(page(1, 3, 0..50));
    bulk.record_page(2, Ok(page(2, 3, 50..100)));
    bulk.record_page(3, Err(Error::MissingRetryHint));
    assert!(bulk.is_complete());
    assert_eq!(bulk.finish(), Err(Error::MissingRetryHint));
}

#[test]
fn scenario_server_error_fails_at_once() {
    let (out, waits, attempts) =
        run_request(vec![received(500, None, 0u8), received(200, None, 1u8)]);
    assert_eq!(out, Err(Error::NonRetryableStatus(500)));
    assert!(waits.is_empty());
    assert_eq!(attempts, 1);

    let mut bulk = BulkCollection::start(page(1, 3, 0..50));
    bulk.record_page(2, Err(Error::NonRetryableStatus(500)));
    assert!(bulk.is_complete());
    assert_eq!(bulk.finish(), Err(Error::NonRetryableStatus(500)));
}

#[test]
fn throttled_with_hint_never_exceeds_five_attempts() {
    let replies: Vec<Reply<u8>> = (0..8).map(|_| received(429, Some("3"), 0u8)).collect();
    let (out, waits, attempts) = run_request(replies);
    assert_eq!(out, Err(Error::RetryBudgetExhausted));
    assert_eq!(waits, vec![3, 3, 3, 3]);
    assert_eq!(attempts, 5);
}

#[test]
fn client_errors_are_not_retried() {
    for status in [400u16, 401, 404, 418, 503, 599] {
        let (out, waits, attempts) = run_request(vec![received(status, Some("1"), 0u8)]);
        assert_eq!(out, Err(Error::NonRetryableStatus(status)));
        assert!(waits.is_empty());
        assert_eq!(attempts, 1);
    }
}

#[test]
fn non_error_statuses_are_delivered() {
    for status in [200u16, 204, 301, 399, 600] {
        let (out, _, attempts) = run_request(vec![received(status, None, 9u8)]);
        assert_eq!(out, Ok(9));
        assert_eq!(attempts, 1);
    }
}

#[test]
fn transport_failure_is_fatal() {
    let (out, _, attempts) =
        run_request::<u8>(vec![Reply::Unreachable(String::from("timed out"))]);
    assert_eq!(out, Err(Error::TransportFailure(String::from("timed out"))));
    assert_eq!(attempts, 1);
}

#[test]
fn unparseable_hint_retries_immediately() {
    let (out, waits, attempts) = run_request(vec![
        received(429, Some("soon"), 0u8),
        received(429, Some("-1"), 0u8),
        received(429, Some(""), 0u8),
        received(200, None, 4u8),
    ]);
    assert_eq!(out, Ok(4));
    assert!(waits.is_empty());
    assert_eq!(attempts, 4);
}

#[test]
fn retry_after_values() {
    assert_eq!(parse_retry_after(b"0"), Some(0));
    assert_eq!(parse_retry_after(b"120"), Some(120));
    assert_eq!(parse_retry_after(b"+7"), Some(7));
    assert_eq!(parse_retry_after(b"007"), Some(7));
    assert_eq!(parse_retry_after(b"18446744073709551615"), Some(u64::MAX));
    assert_eq!(parse_retry_after(b"18446744073709551616"), None);
    assert_eq!(parse_retry_after(b"99999999999999999999x"), None);
    assert_eq!(parse_retry_after(b""), None);
    assert_eq!(parse_retry_after(b"+"), None);
    assert_eq!(parse_retry_after(b"1.5"), None);
    assert_eq!(parse_retry_after(b" 5"), None);
    assert_eq!(parse_retry_after(b"Wed, 21 Oct 2015 07:28:00 GMT"), None);
    assert_eq!(parse_retry_after(&[0xff, b'1']), None);
}

#[test]
fn decode_failures_are_retried_then_surface() {
    let mut retry = PageRetry::new();
    for _ in 0..4 {
        assert_eq!(retry.after_decode::<u8>(Err(String::from("bad json"))), PageAction::Retry);
    }
    assert_eq!(
        retry.after_decode::<u8>(Err(String::from("still bad"))),
        PageAction::Fail(Error::DecodeFailure(String::from("still bad")))
    );
    assert_eq!(retry.after_decode(Ok(1u8)), PageAction::Fail(Error::RetryBudgetExhausted));

    let mut retry = PageRetry::new();
    assert_eq!(retry.after_decode::<u8>(Err(String::from("x"))), PageAction::Retry);
    assert_eq!(retry.after_decode(Ok(3u8)), PageAction::Accept(3));
}

#[test]
fn single_page_listing_needs_no_more_requests() {
    let bulk = BulkCollection::start(page(1, 1, 0..20));
    assert!(bulk.remaining_pages().is_empty());
    assert!(bulk.is_complete());
    assert_eq!(bulk.finish().unwrap(), (0..20).collect::<Vec<u32>>());

    let bulk = BulkCollection::start(page(1, 0, 0..0));
    assert!(bulk.remaining_pages().is_empty());
    assert_eq!(bulk.finish().unwrap(), Vec::<u32>::new());
}

#[test]
fn remaining_pages_cover_two_to_last() {
    let bulk = BulkCollection::start(page(1, 6, 0..3));
    assert_eq!(bulk.remaining_pages(), vec![2, 3, 4, 5, 6]);
}

#[test]
fn completion_order_does_not_change_result() {
    let orders: [[i32; 3]; 3] = [[2, 3, 4], [4, 3, 2], [3, 2, 4]];
    let mut results = Vec::new();
    for order in orders {
        let mut bulk = BulkCollection::start(page(1, 4, 0..2));
        for p in order {
            let start = (p as u32) * 10;
            bulk.record(p, Ok((start..start + 3).collect()));
        }
        results.push(bulk.finish().unwrap());
    }
    assert_eq!(results[0], vec![0, 1, 20, 21, 22, 30, 31, 32, 40, 41, 42]);
    assert_eq!(results[0], results[1]);
    assert_eq!(results[1], results[2]);
}

#[test]
fn first_failure_is_kept_and_outside_pages_are_ignored() {
    let mut bulk = BulkCollection::start(page(1, 3, 0..2));
    bulk.record(7, Err(Error::MissingRetryHint));
    bulk.record(1, Ok(vec![99]));
    bulk.record(0, Err(Error::RetryBudgetExhausted));
    assert!(!bulk.is_complete());
    bulk.record(3, Err(Error::NonRetryableStatus(503)));
    bulk.record(2, Err(Error::MissingRetryHint));
    bulk.record(2, Ok(vec![5]));
    assert_eq!(bulk.finish(), Err(Error::NonRetryableStatus(503)));
}
