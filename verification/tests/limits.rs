use rustcord::bucket::RateLimitBucket;
use rustcord::cache::ResponseCache;
use rustcord::errors::DiscordError;
use rustcord::limiter::RateLimiter;
use rustcord::method::HttpMethod;
use rustcord::request::{classify_status, RequestFlow, ResponseClass, RetryDecision, DEFAULT_RETRY_WAIT};

#[test]
fn new_bucket_is_empty() {
    let b = RateLimitBucket::new();
    assert_eq!(
        b,
        RateLimitBucket { remaining: None, reset_at: None, total_requests: 0, total_retries: 0, last_used: None }
    );
}

#[test]
fn bucket_counters() {
    let mut b = RateLimitBucket::new();
    b.increment_requests(5);
    b.increment_requests(9);
    b.increment_retries();
    assert_eq!(b.total_requests, 2);
    assert_eq!(b.total_retries, 1);
    assert_eq!(b.last_used, Some(9));
    let mut w = RateLimitBucket { total_requests: u64::MAX, ..RateLimitBucket::new() };
    w.increment_requests(1);
    assert_eq!(w.total_requests, 0);
}

#[test]
fn bucket_metrics_order() {
    let mut b = RateLimitBucket::new();
    b.increment_requests(1);
    assert_eq!(b.get_metrics(), vec![("total_requests".to_string(), 1), ("total_retries".to_string(), 0)]);
    b.remaining = Some(3);
    assert_eq!(
        b.get_metrics(),
        vec![("total_requests".to_string(), 1), ("total_retries".to_string(), 0), ("remaining".to_string(), 3)]
    );
}

#[test]
fn unknown_route_never_waits() {
    let l = RateLimiter::new();
    assert_eq!(l.wait_before_send("GET /x", 100), 0);
    assert_eq!(l.bucket("GET /x"), None);
}

#[test]
fn exhausted_bucket_waits_until_reset() {
    let mut l = RateLimiter::new();
    l.mark_exhausted("GET /x", Some(500), 1_000);
    assert_eq!(l.wait_before_send("GET /x", 1_000), 500);
    assert_eq!(l.wait_before_send("GET /x", 1_200), 300);
    assert_eq!(l.wait_before_send("GET /x", 1_500), 0);
    assert_eq!(l.wait_before_send("GET /x", 9_999), 0);
    let b = l.bucket("GET /x").unwrap();
    assert_eq!(b.remaining, Some(0));
    assert_eq!(b.reset_at, Some(1_500));
}

#[test]
fn exhausted_without_wait_keeps_reset() {
    let mut l = RateLimiter::new();
    l.mark_exhausted("b", None, 10);
    let b = l.bucket("b").unwrap();
    assert_eq!(b.remaining, Some(0));
    assert_eq!(b.reset_at, None);
    assert_eq!(l.wait_before_send("b", 10), 0);
}

#[test]
fn success_updates_bucket() {
    let mut l = RateLimiter::new();
    l.record_success("k", Some("0".to_string()), Some(250), 100);
    let b = l.bucket("k").unwrap();
    assert_eq!(b.total_requests, 1);
    assert_eq!(b.last_used, Some(100));
    assert_eq!(b.remaining, Some(0));
    assert_eq!(b.reset_at, Some(350));
    assert_eq!(l.wait_before_send("k", 100), 250);
    l.record_success("k", Some("many".to_string()), None, 200);
    let b = l.bucket("k").unwrap();
    assert_eq!(b.total_requests, 2);
    assert_eq!(b.remaining, Some(0));
    assert_eq!(b.reset_at, Some(350));
    l.record_success("k", Some("12".to_string()), None, 300);
    assert_eq!(l.bucket("k").unwrap().remaining, Some(12));
}

#[test]
fn retries_only_counted_on_known_route() {
    let mut l = RateLimiter::new();
    l.record_retry("r");
    assert_eq!(l.bucket("r"), None);
    l.record_success("r", None, None, 1);
    l.record_retry("r");
    assert_eq!(l.bucket("r").unwrap().total_retries, 1);
}

#[test]
fn metrics_lists_every_bucket_once() {
    let mut l = RateLimiter::new();
    l.record_success("a", Some("4".to_string()), None, 1);
    l.record_success("b", None, None, 1);
    l.record_success("a", None, None, 2);
    let mut m = l.metrics();
    m.sort();
    assert_eq!(
        m,
        vec![
            (
                "a".to_string(),
                vec![("total_requests".to_string(), 2), ("total_retries".to_string(), 0), ("remaining".to_string(), 4)]
            ),
            ("b".to_string(), vec![("total_requests".to_string(), 1), ("total_retries".to_string(), 0)]),
        ]
    );
}

#[test]
fn cache_keeps_only_get_bodies() {
    let mut c = ResponseCache::new();
    assert_eq!(c.lookup(HttpMethod::Get, "u"), None);
    c.store(HttpMethod::Post, "u", vec![1]);
    assert_eq!(c.lookup(HttpMethod::Get, "u"), None);
    c.store(HttpMethod::Get, "u", vec![1, 2]);
    assert_eq!(c.lookup(HttpMethod::Get, "u"), Some(vec![1, 2]));
    assert_eq!(c.lookup(HttpMethod::Post, "u"), None);
    c.store(HttpMethod::Get, "u", vec![3]);
    assert_eq!(c.lookup(HttpMethod::Get, "u"), Some(vec![3]));
}

#[test]
fn status_classes() {
    assert_eq!(classify_status(429), ResponseClass::RateLimited);
    assert_eq!(classify_status(200), ResponseClass::Success);
    assert_eq!(classify_status(204), ResponseClass::Success);
    assert_eq!(classify_status(299), ResponseClass::Success);
    assert_eq!(classify_status(300), ResponseClass::Failure);
    assert_eq!(classify_status(404), ResponseClass::Failure);
    assert_eq!(classify_status(199), ResponseClass::Failure);
}

#[test]
fn flow_starts_with_route_key() {
    let f = RequestFlow::start(HttpMethod::Get, "/channels/1/pins?a=b");
    assert_eq!(f.route_key, "GET /channels/1/pins");
    assert_eq!(f.attempts, 0);
    assert_eq!(f.label(), "[GET /channels/1/pins?a=b]");
}

#[test]
fn fifth_rate_limit_gives_up() {
    let mut l = RateLimiter::new();
    let mut f = RequestFlow::start(HttpMethod::Post, "/x");
    for i in 0..4u64 {
        let d = f.on_rate_limited(&mut l, None, if i == 0 { None } else { Some(7) }, 0);
        let expected = if i == 0 { DEFAULT_RETRY_WAIT } else { 7 };
        assert_eq!(d, RetryDecision::Retry { wait: expected });
    }
    let d = f.on_rate_limited(&mut l, None, None, 0);
    assert_eq!(
        d,
        RetryDecision::GiveUp(DiscordError::ApiError(
            "[POST /x] Rate limited and retry attempts exhausted".to_string()
        ))
    );
    assert_eq!(f.attempts, 5);
}

#[test]
fn rate_limit_marks_named_bucket() {
    let mut l = RateLimiter::new();
    let mut f = RequestFlow::start(HttpMethod::Get, "/y");
    l.record_success("GET /y", None, None, 0);
    let d = f.on_rate_limited(&mut l, Some("abc".to_string()), Some(40), 10);
    assert_eq!(d, RetryDecision::Retry { wait: 40 });
    assert_eq!(l.bucket("GET /y").unwrap().total_retries, 1);
    let b = l.bucket("abc").unwrap();
    assert_eq!(b.remaining, Some(0));
    assert_eq!(b.reset_at, Some(50));
}

#[test]
fn success_prefers_named_bucket() {
    let mut l = RateLimiter::new();
    let f = RequestFlow::start(HttpMethod::Get, "/z");
    f.on_success(&mut l, Some("h".to_string()), Some("3".to_string()), None, 5);
    assert_eq!(l.bucket("h").unwrap().remaining, Some(3));
    assert_eq!(l.bucket("GET /z"), None);
    f.on_success(&mut l, None, None, None, 6);
    assert_eq!(l.bucket("GET /z").unwrap().total_requests, 1);
    assert_eq!(f.wait_before_send(&l, 6), 0);
}

#[test]
fn flow_error_messages() {
    let f = RequestFlow::start(HttpMethod::Get, "u");
    assert_eq!(f.send_failed("boom"), DiscordError::ApiError("[GET u] Failed to send request: boom".to_string()));
    assert_eq!(
        f.status_error("404 Not Found", Some("nope".to_string())),
        DiscordError::ApiError("[GET u] Discord API error: 404 Not Found - nope".to_string())
    );
    assert_eq!(
        f.status_error("500 Internal Server Error", None),
        DiscordError::ApiError("[GET u] Discord API error: 500 Internal Server Error - Unknown error".to_string())
    );
    assert_eq!(f.read_failed("eof"), DiscordError::ParseError("[GET u] Failed to get response bytes: eof".to_string()));
    assert_eq!(f.parse_failed("bad"), DiscordError::ParseError("[GET u] Failed to parse response: bad".to_string()));
}

#[test]
fn far_resets_saturate() {
    let mut l = RateLimiter::new();
    l.mark_exhausted("far", Some(u64::MAX), 10);
    assert_eq!(l.bucket("far").unwrap().reset_at, Some(u64::MAX));
    assert_eq!(l.wait_before_send("far", 10), u64::MAX - 10);
    l.record_success("far2", None, Some(u64::MAX - 1), 5);
    assert_eq!(l.bucket("far2").unwrap().reset_at, Some(u64::MAX));
}
