//! The decisions of one API request: which rate-limit bucket it uses, how long
//! it waits, what each response does to the buckets, when a rate-limited
//! request is retried and when it gives up, and the errors it reports.
//!
//! The caller performs the I/O (sending, sleeping, reading bodies) and hands
//! each outcome to the flow; the flow answers with what to do next.

use vstd::prelude::*;

use crate::errors::DiscordError;
use crate::limiter::{
    after_retry_on, bucket_or_fresh, exhausted_bucket, opt_view, served_bucket, wait_needed,
    RateLimiter,
};
use crate::method::{method_name, HttpMethod};
use crate::route::{route_key, route_key_of};

verus! {

/// Rate-limited responses a request accepts before it gives up.
pub const MAX_ATTEMPTS: u8 = 5;

/// The wait, in nanoseconds, before retrying when the server gave none.
pub const DEFAULT_RETRY_WAIT: u64 = 1_000_000_000;

/// The HTTP status that signals a rate limit.
pub const TOO_MANY_REQUESTS: u16 = 429;

/// How a response status is handled.
#[derive(Clone, Copy, Debug, PartialEq, Eq)]
pub enum ResponseClass {
    /// 429: retry after a wait, or give up.
    RateLimited,
    /// 2xx: the body is the answer.
    Success,
    /// Anything else: the request fails with the body as explanation.
    Failure,
}

/// The class of a status code.
pub open spec fn class_of(status: u16) -> ResponseClass {
    if status == 429 {
        ResponseClass::RateLimited
    } else if 200 <= status <= 299 {
        ResponseClass::Success
    } else {
        ResponseClass::Failure
    }
}

/// Classifies a response status.
pub fn classify_status(status: u16) -> (c: ResponseClass)
    ensures
        c == class_of(status),
{
    if status == TOO_MANY_REQUESTS {
        ResponseClass::RateLimited
    } else if 200 <= status && status <= 299 {
        ResponseClass::Success
    } else {
        ResponseClass::Failure
    }
}

/// What to do after a rate-limited response.
#[derive(Clone, Debug, PartialEq, Eq)]
pub enum RetryDecision {
    /// Sleep this many nanoseconds, then send again.
    Retry { wait: u64 },
    /// Stop with this error.
    GiveUp(DiscordError),
}

/// The attempt count after one more rate-limited response (it saturates).
pub open spec fn next_attempts(a: u8) -> u8 {
    if a == u8::MAX { u8::MAX } else { (a + 1) as u8 }
}

/// Whether a request that has seen `a` rate-limited responses gives up on the next.
pub open spec fn gives_up_after(a: u8) -> bool {
    next_attempts(a) >= MAX_ATTEMPTS
}

/// The `[METHOD url]` prefix of a request's error messages.
pub open spec fn request_label(method: HttpMethod, url: Seq<char>) -> Seq<char> {
    "["@ + method_name(method) + " "@ + url + "]"@
}

/// The error a request reports once its rate-limit retries are used up.
pub open spec fn exhausted_message(method: HttpMethod, url: Seq<char>) -> Seq<char> {
    request_label(method, url) + " Rate limited and retry attempts exhausted"@
}

/// One API request in progress.
pub struct RequestFlow {
    /// The request method.
    pub method: HttpMethod,
    /// The full request URL.
    pub url: String,
    /// The rate-limit route key of the request.
    pub route_key: String,
    /// Rate-limited responses seen so far.
    pub attempts: u8,
}

impl RequestFlow {
    /// The flow of a request that has not been sent yet.
    pub fn start(method: HttpMethod, url: &str) -> (f: Self)
        ensures
            f.method == method,
            f.url@ == url@,
            f.route_key@ == route_key_of(method, url@),
            f.attempts == 0,
    {
        RequestFlow { method, url: url.to_owned(), route_key: route_key(method, url), attempts: 0 }
    }

    /// How long to wait (nanoseconds) at `now` before the first send: until
    /// the route's bucket resets, when it is known to be exhausted.
    pub fn wait_before_send(&self, limiter: &RateLimiter, now: u64) -> (w: u64)
        ensures
            w == wait_needed(limiter@, self.route_key@, now),
    {
        limiter.wait_before_send(self.route_key.as_str(), now)
    }

    /// `[METHOD url]`, the prefix of the request's error messages.
    pub fn label(&self) -> (s: String)
        ensures
            s@ == request_label(self.method, self.url@),
    {
        let mut s = "[".to_owned();
        s.append(self.method.as_str());
        s.append(" ");
        s.append(self.url.as_str());
        s.append("]");
        s
    }

    /// Handles a rate-limited (429) response at `now`. The route's bucket, if
    /// known, counts a retry; when the server named a bucket (`bucket_id`),
    /// that bucket is marked exhausted, resetting `retry_after` nanoseconds
    /// from `now` when the wait is known. The fifth rate-limited response
    /// ends the request; before that, the request is retried after
    /// `retry_after`, or one second when the server gave no wait.
    pub fn on_rate_limited(
        &mut self,
        limiter: &mut RateLimiter,
        bucket_id: Option<String>,
        retry_after: Option<u64>,
        now: u64,
    ) -> (d: RetryDecision)
        ensures
            final(self).method == old(self).method,
            final(self).url == old(self).url,
            final(self).route_key == old(self).route_key,
            final(self).attempts == next_attempts(old(self).attempts),
            ({
                let counted = after_retry_on(old(limiter)@, old(self).route_key@);
                final(limiter)@ == match bucket_id {
                    Some(b) => counted.insert(
                        b@,
                        exhausted_bucket(bucket_or_fresh(counted, b@), retry_after, now),
                    ),
                    None => counted,
                }
            }),
            gives_up_after(old(self).attempts) ==> (d matches RetryDecision::GiveUp(
                DiscordError::ApiError(m),
            ) && m@ == exhausted_message(old(self).method, old(self).url@)),
            !gives_up_after(old(self).attempts) ==> d == (RetryDecision::Retry {
                wait: match retry_after {
                    Some(w) => w,
                    None => DEFAULT_RETRY_WAIT,
                },
            }),
    {
        self.attempts = if self.attempts == u8::MAX { u8::MAX } else { self.attempts + 1 };
        limiter.record_retry(self.route_key.as_str());
        match bucket_id {
            Some(b) => {
                limiter.mark_exhausted(b.as_str(), retry_after, now);
            },
            None => {},
        }
        if self.attempts >= MAX_ATTEMPTS {
            let mut m = self.label();
            m.append(" Rate limited and retry attempts exhausted");
            return RetryDecision::GiveUp(DiscordError::ApiError(m));
        }
        let wait = match retry_after {
            Some(w) => w,
            None => DEFAULT_RETRY_WAIT,
        };
        RetryDecision::Retry { wait }
    }

    /// Handles a successful response at `now`: the bucket the server named,
    /// or else the route's bucket, counts the request and takes its remaining
    /// count and reset delay from the headers.
    pub fn on_success(
        &self,
        limiter: &mut RateLimiter,
        bucket_id: Option<String>,
        remaining_header: Option<String>,
        reset_after: Option<u64>,
        now: u64,
    )
        ensures
            ({
                let key = match bucket_id {
                    Some(b) => b@,
                    None => self.route_key@,
                };
                final(limiter)@ == old(limiter)@.insert(
                    key,
                    served_bucket(
                        bucket_or_fresh(old(limiter)@, key),
                        opt_view(remaining_header),
                        reset_after,
                        now,
                    ),
                )
            }),
    {
        let key = match bucket_id {
            Some(b) => b,
            None => self.route_key.clone(),
        };
        limiter.record_success(key.as_str(), remaining_header, reset_after, now);
    }

    /// The error when the request could not be sent.
    pub fn send_failed(&self, detail: &str) -> (e: DiscordError)
        ensures
            e matches DiscordError::ApiError(m) && m@ == request_label(self.method, self.url@)
                + " Failed to send request: "@ + detail@,
    {
        let mut m = self.label();
        m.append(" Failed to send request: ");
        m.append(detail);
        DiscordError::ApiError(m)
    }

    /// The error for a response whose status is neither success nor 429:
    /// `status` is the status as displayed (code and reason), `body` the
    /// response text when it could be read.
    pub fn status_error(&self, status: &str, body: Option<String>) -> (e: DiscordError)
        ensures
            e matches DiscordError::ApiError(m) && m@ == request_label(self.method, self.url@)
                + " Discord API error: "@ + status@ + " - "@ + match body {
                Some(b) => b@,
                None => "Unknown error"@,
            },
    {
        let mut m = self.label();
        m.append(" Discord API error: ");
        m.append(status);
        m.append(" - ");
        match body {
            Some(b) => {
                m.append(b.as_str());
            },
            None => {
                m.append("Unknown error");
            },
        }
        DiscordError::ApiError(m)
    }

    /// The error when a successful response's body could not be read.
    pub fn read_failed(&self, detail: &str) -> (e: DiscordError)
        ensures
            e matches DiscordError::ParseError(m) && m@ == request_label(self.method, self.url@)
                + " Failed to get response bytes: "@ + detail@,
    {
        let mut m = self.label();
        m.append(" Failed to get response bytes: ");
        m.append(detail);
        DiscordError::ParseError(m)
    }

    /// The error when a response body is not what the request expects.
    pub fn parse_failed(&self, detail: &str) -> (e: DiscordError)
        ensures
            e matches DiscordError::ParseError(m) && m@ == request_label(self.method, self.url@)
                + " Failed to parse response: "@ + detail@,
    {
        let mut m = self.label();
        m.append(" Failed to parse response: ");
        m.append(detail);
        DiscordError::ParseError(m)
    }
}

} // verus!
