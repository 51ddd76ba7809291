//! The client's rate-limit buckets, keyed by route key or by the bucket id the
//! server names, and the bookkeeping each response does on them.

use vstd::prelude::*;

use crate::bucket::{
    after_request, after_retry, bucket_metrics, fresh_bucket, metric_views, RateLimitBucket,
};
use crate::numeric::{parse_u64, parsed_u64};
use crate::tables::{
    bucket_table, bucket_table_entries, bucket_table_get, bucket_table_insert, new_bucket_table,
    BucketMap,
};

verus! {

/// All rate-limit buckets the client knows of.
pub struct RateLimiter {
    buckets: BucketMap,
}

impl View for RateLimiter {
    type V = Map<Seq<char>, RateLimitBucket>;

    closed spec fn view(&self) -> Map<Seq<char>, RateLimitBucket> {
        bucket_table(self.buckets)
    }
}

/// How long a request on `key` must wait at `now`: until the reset instant
/// when the bucket is known, has no requests left and resets later.
pub open spec fn wait_needed(t: Map<Seq<char>, RateLimitBucket>, key: Seq<char>, now: u64) -> u64 {
    if t.contains_key(key) && t[key].remaining == Some(0u64) && t[key].reset_at is Some
        && t[key].reset_at->0 > now {
        (t[key].reset_at->0 - now) as u64
    } else {
        0
    }
}

/// The bucket stored under `key`, or a fresh one.
pub open spec fn bucket_or_fresh(t: Map<Seq<char>, RateLimitBucket>, key: Seq<char>) -> RateLimitBucket {
    if t.contains_key(key) {
        t[key]
    } else {
        fresh_bucket()
    }
}

/// The buckets after a rate-limited response on `route`: that bucket, if
/// known, counts one more retry.
pub open spec fn after_retry_on(t: Map<Seq<char>, RateLimitBucket>, route: Seq<char>) -> Map<
    Seq<char>,
    RateLimitBucket,
> {
    if t.contains_key(route) {
        t.insert(route, after_retry(t[route]))
    } else {
        t
    }
}

/// The instant `d` nanoseconds after `now`; instants past the clock's range
/// are held at its last value.
pub open spec fn later_by(now: u64, d: u64) -> u64 {
    if now + d <= u64::MAX {
        (now + d) as u64
    } else {
        u64::MAX
    }
}

/// The bucket the server named in a rate-limited response, after it: no
/// requests left, and, when the wait is known, a reset `wait` after `now`.
pub open spec fn exhausted_bucket(b: RateLimitBucket, wait: Option<u64>, now: u64) -> RateLimitBucket {
    let with_reset = match wait {
        Some(d) => RateLimitBucket { reset_at: Some(later_by(now, d)), ..b },
        None => b,
    };
    RateLimitBucket { remaining: Some(0u64), ..with_reset }
}

/// The bucket `key` after a successful response at `now`: one more request,
/// the remaining count when the header parses as a number, and the reset
/// instant when the reset delay is known.
pub open spec fn served_bucket(
    b: RateLimitBucket,
    remaining_header: Option<Seq<char>>,
    reset_after: Option<u64>,
    now: u64,
) -> RateLimitBucket {
    let counted = after_request(b, now);
    let with_remaining = match remaining_header {
        Some(h) => match parsed_u64(h) {
            Some(n) => RateLimitBucket { remaining: Some(n), ..counted },
            None => counted,
        },
        None => counted,
    };
    match reset_after {
        Some(d) => RateLimitBucket { reset_at: Some(later_by(now, d)), ..with_remaining },
        None => with_remaining,
    }
}

/// The character view of an optional string.
pub open spec fn opt_view(s: Option<String>) -> Option<Seq<char>> {
    match s {
        Some(x) => Some(x@),
        None => None,
    }
}

impl RateLimiter {
    /// A limiter that knows no bucket.
    pub fn new() -> (l: Self)
        ensures
            l@ == Map::<Seq<char>, RateLimitBucket>::empty(),
    {
        let l = RateLimiter { buckets: new_bucket_table() };
        assert(l@ =~= Map::<Seq<char>, RateLimitBucket>::empty());
        l
    }

    /// The bucket stored under `key`, if any.
    pub fn bucket(&self, key: &str) -> (r: Option<RateLimitBucket>)
        ensures
            r == (if self@.contains_key(key@) {
                Some(self@[key@])
            } else {
                None
            }),
    {
        bucket_table_get(&self.buckets, key)
    }

    /// Stores `b` under `key`.
    fn put(&mut self, key: &str, b: RateLimitBucket)
        ensures
            final(self)@ == old(self)@.insert(key@, b),
    {
        bucket_table_insert(&mut self.buckets, key.to_owned(), b);
    }

    /// How long (in nanoseconds) a request on route `key` must wait at `now`
    /// before it is sent: until the bucket resets when it is known to be
    /// exhausted, otherwise not at all.
    pub fn wait_before_send(&self, key: &str, now: u64) -> (w: u64)
        ensures
            w == wait_needed(self@, key@, now),
    {
        match self.bucket(key) {
            Some(b) => match (b.remaining, b.reset_at) {
                (Some(0), Some(reset)) => {
                    if reset > now {
                        reset - now
                    } else {
                        0
                    }
                },
                _ => 0,
            },
            None => 0,
        }
    }

    /// Counts a rate-limited response against the bucket of `route`, when
    /// that bucket is known.
    pub fn record_retry(&mut self, route: &str)
        ensures
            final(self)@ == after_retry_on(old(self)@, route@),
    {
        match self.bucket(route) {
            Some(b) => {
                let mut b = b;
                b.increment_retries();
                self.put(route, b);
            },
            None => {},
        }
    }

    /// Marks the bucket the server named as exhausted: it has no requests
    /// left, and it resets `wait` nanoseconds after `now` when `wait` is known
    /// (at the clock's last instant when that lies beyond it). An unknown
    /// bucket is created first.
    pub fn mark_exhausted(&mut self, bucket_id: &str, wait: Option<u64>, now: u64)
        ensures
            final(self)@ == old(self)@.insert(
                bucket_id@,
                exhausted_bucket(bucket_or_fresh(old(self)@, bucket_id@), wait, now),
            ),
    {
        let mut b = match self.bucket(bucket_id) {
            Some(b) => b,
            None => RateLimitBucket::new(),
        };
        match wait {
            Some(d) => {
                b.reset_at = Some(now.saturating_add(d));
            },
            None => {},
        }
        b.remaining = Some(0);
        self.put(bucket_id, b);
    }

    /// Records a successful response at `now` against bucket `key`: the
    /// request is counted, the remaining count is taken from the
    /// `x-ratelimit-remaining` header when it parses as a number, and the
    /// reset instant is set `reset_after` nanoseconds after `now` when known
    /// (at the clock's last instant when that lies beyond it). An unknown
    /// bucket is created first.
    pub fn record_success(
        &mut self,
        key: &str,
        remaining_header: Option<String>,
        reset_after: Option<u64>,
        now: u64,
    )
        ensures
            final(self)@ == old(self)@.insert(
                key@,
                served_bucket(
                    bucket_or_fresh(old(self)@, key@),
                    opt_view(remaining_header),
                    reset_after,
                    now,
                ),
            ),
    {
        let mut b = match self.bucket(key) {
            Some(b) => b,
            None => RateLimitBucket::new(),
        };
        b.increment_requests(now);
        match remaining_header {
            Some(h) => match parse_u64(h.as_str()) {
                Some(n) => {
                    b.remaining = Some(n);
                },
                None => {},
            },
            None => {},
        }
        match reset_after {
            Some(d) => {
                b.reset_at = Some(now.saturating_add(d));
            },
            None => {},
        }
        self.put(key, b);
    }

    /// The metrics of every bucket, each once, under its key. The order of the
    /// buckets is the map's internal order.
    pub fn metrics(&self) -> (r: Vec<(String, Vec<(String, u64)>)>)
        ensures
            forall|i: int|
                #![trigger r@[i]]
                0 <= i < r@.len() ==> self@.contains_key(r@[i].0@) && metric_views(r@[i].1@)
                    == bucket_metrics(self@[r@[i].0@]),
            forall|i: int, j: int|
                #![trigger r@[i], r@[j]]
                0 <= i < r@.len() && 0 <= j < r@.len() && i != j ==> r@[i].0@ != r@[j].0@,
            forall|k: Seq<char>|
                #![trigger self@.contains_key(k)]
                self@.contains_key(k) ==> exists|i: int| 0 <= i < r@.len() && #[trigger] r@[i].0@ == k,
    {
        let entries = bucket_table_entries(&self.buckets);
        let mut r: Vec<(String, Vec<(String, u64)>)> = Vec::new();
        for i in 0..entries.len()
            invariant
                r@.len() == i,
                forall|j: int|
                    #![trigger r@[j]]
                    0 <= j < i ==> r@[j].0@ == entries@[j].0@ && metric_views(r@[j].1@)
                        == bucket_metrics(entries@[j].1),
        {
            let name = entries[i].0.clone();
            let m = entries[i].1.get_metrics();
            r.push((name, m));
        }
        assert forall|k: Seq<char>| #![trigger self@.contains_key(k)] self@.contains_key(k) implies exists|i: int|
            0 <= i < r@.len() && #[trigger] r@[i].0@ == k by {
            let i = choose|i: int| 0 <= i < entries@.len() && #[trigger] entries@[i].0@ == k;
            assert(r@[i].0@ == k);
        }
        assert forall|i: int, j: int|
            #![trigger r@[i], r@[j]]
            0 <= i < r@.len() && 0 <= j < r@.len() && i != j implies r@[i].0@ != r@[j].0@ by {
            assert(entries@[i].0@ != entries@[j].0@);
        }
        assert forall|i: int| #![trigger r@[i]] 0 <= i < r@.len() implies self@.contains_key(r@[i].0@)
            && metric_views(r@[i].1@) == bucket_metrics(self@[r@[i].0@]) by {
            assert(r@[i].0@ == entries@[i].0@);
            assert(bucket_table(self.buckets)[entries@[i].0@] == entries@[i].1);
        }
        r
    }
}

} // verus!
