//! One rate-limit bucket: what the server last said about it, and counters.
//!
//! Instants are nanoseconds on a monotonic clock chosen by the caller.

use vstd::prelude::*;

verus! {

/// The state of one rate-limit bucket.
#[derive(Clone, Copy, Debug, PartialEq, Eq)]
pub struct RateLimitBucket {
    /// Requests left in the current window, when the server said so.
    pub remaining: Option<u64>,
    /// When the current window resets, when known.
    pub reset_at: Option<u64>,
    /// Successful requests counted against this bucket.
    pub total_requests: u64,
    /// Rate-limited responses counted against this bucket.
    pub total_retries: u64,
    /// When the bucket last served a successful request.
    pub last_used: Option<u64>,
}

/// A counter after one more event; counters wrap around at `u64::MAX` as an
/// optimised build's `+=` does.
pub open spec fn bumped(x: u64) -> u64 {
    if x == u64::MAX { 0 } else { (x + 1) as u64 }
}

/// A bucket nothing is known about yet.
pub open spec fn fresh_bucket() -> RateLimitBucket {
    RateLimitBucket {
        remaining: None,
        reset_at: None,
        total_requests: 0,
        total_retries: 0,
        last_used: None,
    }
}

/// The bucket after it served a request at `now`.
pub open spec fn after_request(b: RateLimitBucket, now: u64) -> RateLimitBucket {
    RateLimitBucket { total_requests: bumped(b.total_requests), last_used: Some(now), ..b }
}

/// The bucket after one more rate-limited response.
pub open spec fn after_retry(b: RateLimitBucket) -> RateLimitBucket {
    RateLimitBucket { total_retries: bumped(b.total_retries), ..b }
}

/// The metrics of a bucket, in the order they are reported: the two counters,
/// then the remaining count when one is known.
pub open spec fn bucket_metrics(b: RateLimitBucket) -> Seq<(Seq<char>, u64)> {
    let counters = seq![("total_requests"@, b.total_requests), ("total_retries"@, b.total_retries)];
    match b.remaining {
        Some(n) => counters.push(("remaining"@, n)),
        None => counters,
    }
}

/// The character views of named metrics.
pub open spec fn metric_views(v: Seq<(String, u64)>) -> Seq<(Seq<char>, u64)> {
    v.map_values(|p: (String, u64)| (p.0@, p.1))
}

impl RateLimitBucket {
    /// A bucket with no known limit and zero counters.
    pub fn new() -> (b: Self)
        ensures
            b == fresh_bucket(),
    {
        RateLimitBucket {
            remaining: None,
            reset_at: None,
            total_requests: 0,
            total_retries: 0,
            last_used: None,
        }
    }

    /// Counts a request served at `now` and records `now` as the last use.
    pub fn increment_requests(&mut self, now: u64)
        ensures
            *final(self) == after_request(*old(self), now),
    {
        self.total_requests = if self.total_requests == u64::MAX { 0 } else { self.total_requests + 1 };
        self.last_used = Some(now);
    }

    /// Counts a rate-limited response.
    pub fn increment_retries(&mut self)
        ensures
            *final(self) == after_retry(*old(self)),
    {
        self.total_retries = if self.total_retries == u64::MAX { 0 } else { self.total_retries + 1 };
    }

    /// The bucket's metrics by name: `total_requests`, `total_retries`, and
    /// `remaining` when the server reported it.
    pub fn get_metrics(&self) -> (m: Vec<(String, u64)>)
        ensures
            metric_views(m@) == bucket_metrics(*self),
    {
        let mut m: Vec<(String, u64)> = Vec::new();
        m.push(("total_requests".to_owned(), self.total_requests));
        m.push(("total_retries".to_owned(), self.total_retries));
        match self.remaining {
            Some(n) => {
                m.push(("remaining".to_owned(), n));
            },
            None => {},
        }
        assert(metric_views(m@) =~= bucket_metrics(*self));
        m
    }
}

} // verus!
