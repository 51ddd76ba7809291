//! Properties of the library as a whole, stated over the specifications its
//! functions' contracts use, and proved.

use vstd::prelude::*;

use crate::bucket::{bucket_metrics, bumped, RateLimitBucket};
use crate::client::{bot_authorization_text, header_char, header_text};
use crate::cache::{cache_after_store, cached_answer};
use crate::format::{decimal, digit_char};
use crate::limiter::{
    after_retry_on, bucket_or_fresh, exhausted_bucket, served_bucket, wait_needed,
};
use crate::method::HttpMethod;
use crate::numeric::{all_digits, digit_value, digits_value, is_digit, parsed_u64, unsigned_digits};
use crate::json::{decodes_as_struct, field_slot, member, Json};
use crate::request::{class_of, gives_up_after, next_attempts, ResponseClass};
use crate::voice::{
    after_pause, after_play, after_resume, after_stop, attached_to, can_play, holding,
    idle_playback, sounding, Playback, VoiceConnection,
};
use crate::route::{
    before_query, kept_after_message, normalized_piece, normalized_pieces, normalized_route, route_key_of, split_on,
};

verus! {

// ------------------------------------------------------------------- routes

proof fn lemma_before_query_plain(s: Seq<char>)
    requires
        forall|j: int| 0 <= j < s.len() ==> s[j] != '?',
    ensures
        before_query(s) == s,
    decreases s.len(),
{
    if s.len() > 0 {
        lemma_before_query_plain(s.drop_first());
        assert(seq![s[0]] + s.drop_first() =~= s);
    }
}

proof fn lemma_before_query_stops(s: Seq<char>, q: Seq<char>)
    requires
        forall|j: int| 0 <= j < s.len() ==> s[j] != '?',
    ensures
        before_query(s + seq!['?'] + q) == s,
    decreases s.len(),
{
    let full = s + seq!['?'] + q;
    if s.len() == 0 {
        assert(full[0] == '?');
    } else {
        assert(full[0] == s[0]);
        assert(full.drop_first() =~= s.drop_first() + seq!['?'] + q);
        lemma_before_query_stops(s.drop_first(), q);
        assert(seq![s[0]] + s.drop_first() =~= s);
    }
}

/// A query string does not change a request's rate-limit route: for a URL
/// without `?`, adding `?` and any query gives the same route key, which is
/// the normalised URL itself.
pub proof fn law_query_ignored_in_route(method: HttpMethod, url: Seq<char>, query: Seq<char>)
    requires
        forall|j: int| 0 <= j < url.len() ==> url[j] != '?',
    ensures
        route_key_of(method, url + seq!['?'] + query) == route_key_of(method, url),
        route_key_of(method, url) == normalized_route(method, url),
{
    lemma_before_query_stops(url, query);
    lemma_before_query_plain(url);
}

/// Whether `p` is a message id as normalisation sees it: a non-empty piece
/// other than `bulk-delete`, and not itself the word `messages`.
pub open spec fn message_id_piece(p: Seq<char>) -> bool {
    p.len() > 0 && !kept_after_message(p) && p != "messages"@
}

pub(crate) proof fn lemma_split_len(s: Seq<char>, sep: char)
    ensures
        split_on(s, sep).len() >= 1,
        s.len() == 0 ==> split_on(s, sep).len() == 1,
    decreases s.len(),
{
    if s.len() > 0 {
        lemma_split_len(s.drop_last(), sep);
    }
}

pub(crate) proof fn lemma_split_trailing(s: Seq<char>, sep: char)
    ensures
        split_on(s, sep).len() >= 1,
        (s.len() > 0 && s.last() == sep) ==> split_on(s, sep).last().len() == 0,
        (s.len() > 0 && s.last() != sep) ==> split_on(s, sep).last().len() > 0,
        split_on(s, sep).len() >= 2 ==> s.len() > 0,
    decreases s.len(),
{
    lemma_split_len(s, sep);
    if s.len() > 0 {
        lemma_split_trailing(s.drop_last(), sep);
    }
}

proof fn lemma_pieces_agree(a: Seq<Seq<char>>, b: Seq<Seq<char>>, n: nat)
    requires
        n <= a.len(),
        n <= b.len(),
        forall|j: int| 0 <= j < n ==> (a[j].len() == 0 <==> b[j].len() == 0),
        forall|j: int|
            0 <= j < n && a[j].len() > 0 ==> normalized_piece(a, j) == normalized_piece(b, j),
    ensures
        normalized_pieces(a, n) == normalized_pieces(b, n),
    decreases n,
{
    if n > 0 {
        lemma_pieces_agree(a, b, (n - 1) as nat);
    }
}

/// Message ids share a route: two paths that differ only in the piece
/// directly after `messages`, where both pieces are message ids, have the
/// same rate-limit route.
pub proof fn law_message_ids_share_route(method: HttpMethod, a: Seq<char>, b: Seq<char>, i: int)
    requires
        split_on(a, '/').len() == split_on(b, '/').len(),
        1 <= i < split_on(a, '/').len(),
        forall|j: int|
            0 <= j < split_on(a, '/').len() && j != i ==> #[trigger] split_on(a, '/')[j]
                == split_on(b, '/')[j],
        split_on(a, '/')[i - 1] == "messages"@,
        message_id_piece(split_on(a, '/')[i]),
        message_id_piece(split_on(b, '/')[i]),
    ensures
        normalized_route(method, a) == normalized_route(method, b),
{
    let pa = split_on(a, '/');
    let pb = split_on(b, '/');
    assert(pa[i - 1] == pb[i - 1]);
    assert forall|j: int| 0 <= j < pa.len() && pa[j].len() > 0 implies normalized_piece(pa, j)
        == normalized_piece(pb, j) by {
        if j != i {
            assert(pa[j] == pb[j]);
            if j >= 1 && j - 1 != i {
                assert(pa[j - 1] == pb[j - 1]);
            }
        }
    }
    assert forall|j: int| 0 <= j < pa.len() implies (pa[j].len() == 0 <==> pb[j].len() == 0) by {
        if j != i {
            assert(pa[j] == pb[j]);
        }
    }
    lemma_pieces_agree(pa, pb, pa.len());
    lemma_split_trailing(a, '/');
    lemma_split_trailing(b, '/');
    let last = pa.len() - 1;
    if last != i {
        assert(pa[last] == pb[last]);
    }
}

pub(crate) proof fn lemma_pieces_prefix(a: Seq<Seq<char>>, b: Seq<Seq<char>>, n: nat)
    requires
        n <= a.len(),
        n <= b.len(),
        forall|j: int| 0 <= j < n ==> #[trigger] a[j] == b[j],
    ensures
        normalized_pieces(a, n) == normalized_pieces(b, n),
    decreases n,
{
    if n > 0 {
        lemma_pieces_prefix(a, b, (n - 1) as nat);
        let j = n - 1;
        assert(a[j] == b[j]);
        if j >= 1 {
            assert(a[j - 1] == b[j - 1]);
        }
    }
}

/// A trailing slash is preserved: for a non-empty path that does not end in
/// `/`, adding one `/` adds exactly a `/` to the end of the route key.
pub proof fn law_trailing_slash_kept(method: HttpMethod, path: Seq<char>)
    requires
        path.len() > 0,
        path.last() != '/',
    ensures
        normalized_route(method, path.push('/')) == normalized_route(method, path).push('/'),
{
    let p = path.push('/');
    assert(p.drop_last() =~= path);
    let parts = split_on(path, '/');
    let partsp = split_on(p, '/');
    lemma_split_len(path, '/');
    assert(partsp == parts.push(Seq::<char>::empty()));
    assert forall|j: int| 0 <= j < parts.len() implies #[trigger] partsp[j] == parts[j] by {}
    lemma_pieces_prefix(partsp, parts, parts.len());
    assert(normalized_pieces(partsp, partsp.len()) == normalized_pieces(partsp, parts.len()));
    assert(p.last() == '/');
}

// -------------------------------------------------------------- rate limits

/// A route the client has no bucket for never waits.
pub proof fn law_unknown_route_never_waits(t: Map<Seq<char>, RateLimitBucket>, key: Seq<char>, now: u64)
    requires
        !t.contains_key(key),
    ensures
        wait_needed(t, key, now) == 0,
{
}

/// A bucket the server marked exhausted with a known wait `d` makes the next
/// request on it wait exactly `d` at the same instant, and not at all once
/// `d` has passed.
pub proof fn law_exhausted_bucket_waits(
    t: Map<Seq<char>, RateLimitBucket>,
    key: Seq<char>,
    d: u64,
    now: u64,
    later: u64,
)
    requires
        now + d <= u64::MAX,
        later >= now + d,
    ensures
        ({
            let t2 = t.insert(key, exhausted_bucket(bucket_or_fresh(t, key), Some(d), now));
            &&& wait_needed(t2, key, now) == d
            &&& wait_needed(t2, key, later) == 0
        }),
{
}

/// A successful response counts exactly one request on its bucket and
/// records its instant; a `remaining` of 0 with a reset delay `d` then makes
/// the next request wait `d`.
pub proof fn law_success_counts_and_limits(
    t: Map<Seq<char>, RateLimitBucket>,
    key: Seq<char>,
    d: u64,
    now: u64,
)
    requires
        now + d <= u64::MAX,
    ensures
        ({
            let b = served_bucket(bucket_or_fresh(t, key), Some("0"@), Some(d), now);
            let t2 = t.insert(key, b);
            &&& b.total_requests == bumped(bucket_or_fresh(t, key).total_requests)
            &&& b.total_retries == bucket_or_fresh(t, key).total_retries
            &&& b.last_used == Some(now)
            &&& wait_needed(t2, key, now) == d
        }),
{
    reveal_strlit("0");
    let s = "0"@;
    assert(s.len() == 1);
    assert(s[0] == '0');
    assert(s.last() == '0');
    assert('0' as int == 48);
    assert(unsigned_digits(s) == s);
    assert(all_digits(s));
    assert(s.drop_last() =~= Seq::<char>::empty());
    assert(digits_value(s.drop_last()) == 0);
    assert(digits_value(s) == 0);
    assert(parsed_u64(s) == Some(0u64));
}

/// A first successful response on a new bucket leaves it with one request
/// counted, no retries, and what the headers said.
pub proof fn law_first_success_on_new_bucket(key: Seq<char>, now: u64)
    ensures
        ({
            let t = Map::<Seq<char>, RateLimitBucket>::empty();
            let b = served_bucket(bucket_or_fresh(t, key), None, None, now);
            b == RateLimitBucket {
                remaining: None,
                reset_at: None,
                total_requests: 1,
                total_retries: 0,
                last_used: Some(now),
            }
        }),
{
}

/// A rate-limited response counts a retry on the route's bucket only when the
/// client already knows that bucket; no other bucket changes.
pub proof fn law_retry_counted_on_known_route(t: Map<Seq<char>, RateLimitBucket>, route: Seq<char>)
    ensures
        t.contains_key(route) ==> after_retry_on(t, route)[route].total_retries == bumped(
            t[route].total_retries,
        ),
        !t.contains_key(route) ==> after_retry_on(t, route) == t,
        forall|k: Seq<char>|
            k != route ==> (#[trigger] after_retry_on(t, route).contains_key(k) == t.contains_key(k))
                && (t.contains_key(k) ==> after_retry_on(t, route)[k] == t[k]),
{
}

/// The retry budget: a request gives up on a rate-limited response exactly
/// when it has already seen four, so the first four are retried and the
/// fifth ends the request.
pub proof fn law_retry_budget(a: u8)
    ensures
        gives_up_after(a) <==> a >= 4,
        next_attempts(0) == 1 && next_attempts(1) == 2 && next_attempts(2) == 3 && next_attempts(3)
            == 4,
        !gives_up_after(0) && !gives_up_after(1) && !gives_up_after(2) && !gives_up_after(3),
        gives_up_after(4),
{
}

/// The attempt count after `k` rate-limited responses.
pub open spec fn attempts_after(k: nat) -> u8
    decreases k,
{
    if k == 0 {
        0
    } else {
        next_attempts(attempts_after((k - 1) as nat))
    }
}

/// At most five sends: a request is sent once, and again after each
/// rate-limited response that is retried; after `k` rate-limited responses
/// the next one ends the request exactly when `k` is at least four, so no
/// request is sent more than five times.
pub proof fn law_at_most_five_sends(k: nat)
    ensures
        attempts_after(k) as int == if k <= 255 { k as int } else { 255 },
        gives_up_after(attempts_after(k)) <==> k >= 4,
    decreases k,
{
    if k > 0 {
        law_at_most_five_sends((k - 1) as nat);
    }
}

// -------------------------------------------------------------------- cache

/// A `GET` response body kept for a URL is what the cache answers next for a
/// `GET` of the same URL; bodies of other methods are never kept, and other
/// methods are never answered from the cache.
pub proof fn law_cache_read_after_write(
    c: Map<Seq<char>, Seq<u8>>,
    method: HttpMethod,
    url: Seq<char>,
    body: Seq<u8>,
    other: HttpMethod,
)
    ensures
        cached_answer(cache_after_store(c, HttpMethod::Get, url, body), HttpMethod::Get, url)
            == Some(body),
        method != HttpMethod::Get ==> cache_after_store(c, method, url, body) == c,
        other != HttpMethod::Get ==> cached_answer(c, other, url) is None,
{
}

// ----------------------------------------------------------------- playback

/// Whether a playback state is consistent: only a started track can be paused.
pub open spec fn consistent(s: Playback) -> bool {
    s.paused ==> s.playing
}

/// Every operation of the audio player keeps its state consistent, starting
/// from the idle state; hence a player is never both playing and paused.
pub proof fn law_playback_consistent(s: Playback, c: VoiceConnection)
    ensures
        consistent(idle_playback()),
        consistent(s) ==> consistent(attached_to(s, c)),
        consistent(s) ==> consistent(after_play(s)),
        consistent(s) ==> consistent(after_stop(s)),
        consistent(s) ==> consistent(after_pause(s)),
        consistent(s) ==> consistent(after_resume(s)),
        !(sounding(s) && holding(s)),
{
}

/// Stopping silences the player; pausing and then resuming a playing track
/// returns the player to where it was; playing without a connected
/// connection changes nothing.
pub proof fn law_playback_transitions(s: Playback)
    ensures
        !sounding(after_stop(s)) && !holding(after_stop(s)),
        sounding(s) ==> holding(after_pause(s)) && after_resume(after_pause(s)) == s,
        !can_play(s) ==> after_play(s) == s,
        can_play(s) ==> sounding(after_play(s)),
{
}

/// Connecting and then disconnecting a disconnected voice connection gives
/// it back unchanged.
pub proof fn law_disconnect_undoes_connect(c: VoiceConnection)
    requires
        !c.connected,
    ensures
        (VoiceConnection { connected: false, ..(VoiceConnection { connected: true, ..c }) }) == c,
{
}

// ------------------------------------------------------------------ numbers

proof fn lemma_decimal_digits(n: nat)
    ensures
        decimal(n).len() > 0,
        all_digits(decimal(n)),
        digits_value(decimal(n)) == n,
    decreases n,
{
    if n < 10 {
        let s = decimal(n);
        assert(s.drop_last() =~= Seq::<char>::empty());
        assert(digits_value(s.drop_last()) == 0);
        assert(digit_char(n) as int == n + 48);
        assert(is_digit(s[0]));
    } else {
        lemma_decimal_digits(n / 10);
        let s = decimal(n);
        assert(s.drop_last() == decimal(n / 10));
        assert(digit_char(n % 10) as int == n % 10 + 48);
        assert(digit_value(s.last()) == n % 10);
        assert forall|i: int| 0 <= i < s.len() implies is_digit(#[trigger] s[i]) by {
            if i < s.len() - 1 {
                assert(s[i] == decimal(n / 10)[i]);
            }
        }
    }
}

/// Parsing the decimal text of a number gives the number back.
pub proof fn law_parse_decimal_roundtrip(n: u64)
    ensures
        parsed_u64(decimal(n as nat)) == Some(n),
{
    lemma_decimal_digits(n as nat);
    let s = decimal(n as nat);
    assert(is_digit(s[0]));
    assert(unsigned_digits(s) == s);
}

// ------------------------------------------------------------ authorization

/// Every token made of printable ASCII characters (space to `~`) gives a
/// valid `Authorization` header.
pub proof fn law_printable_tokens_accepted(token: Seq<char>)
    requires
        forall|i: int| 0 <= i < token.len() ==> 32 <= #[trigger] token[i] as u32 <= 126,
    ensures
        header_text(bot_authorization_text(token)),
{
    reveal_strlit("Bot ");
    let t = bot_authorization_text(token);
    assert forall|i: int| 0 <= i < t.len() implies header_char(#[trigger] t[i]) by {
        if i >= 4 {
            assert(t[i] == token[i - 4]);
        }
    }
}

/// A token holding a control character other than tab, or DEL, is refused:
/// the `Authorization` header of such a token is not a valid header value, so
/// building it fails with `InvalidToken`.
pub proof fn law_control_tokens_refused(token: Seq<char>, i: int)
    requires
        0 <= i < token.len(),
        ((token[i] as u32) < 32 && token[i] as u32 != 9) || token[i] as u32 == 127,
    ensures
        !header_text(bot_authorization_text(token)),
{
    reveal_strlit("Bot ");
    let t = bot_authorization_text(token);
    assert(t[i + 4] == token[i]);
    assert(!header_char(t[i + 4]));
}

// ------------------------------------------------------------------ waiting

/// Only an exhausted bucket makes a request wait: a known bucket with a
/// positive number of requests left imposes no wait, whatever its reset
/// instant, and any wait comes from a known bucket with none left.
pub proof fn law_remaining_requests_never_wait(
    t: Map<Seq<char>, RateLimitBucket>,
    key: Seq<char>,
    now: u64,
    n: u64,
)
    requires
        t.contains_key(key),
        t[key].remaining == Some(n),
        n > 0,
    ensures
        wait_needed(t, key, now) == 0,
        forall|k: Seq<char>, at: u64|
            #[trigger] wait_needed(t, k, at) > 0 ==> t.contains_key(k) && t[k].remaining == Some(
                0u64,
            ),
{
}

/// A successful response whose `remaining` header reads as a positive number
/// lets the next request on that bucket go at once, at any instant, whatever
/// reset delay came with it.
pub proof fn law_success_with_requests_left_never_waits(
    t: Map<Seq<char>, RateLimitBucket>,
    key: Seq<char>,
    header: Seq<char>,
    reset_after: Option<u64>,
    now: u64,
    later: u64,
)
    requires
        parsed_u64(header) matches Some(n) && n > 0,
    ensures
        wait_needed(
            t.insert(key, served_bucket(bucket_or_fresh(t, key), Some(header), reset_after, now)),
            key,
            later,
        ) == 0,
{
}

/// The metrics report the remaining count exactly when the server gave one,
/// zero included, and always report both counters.
pub proof fn law_metrics_report_remaining(b: RateLimitBucket)
    ensures
        bucket_metrics(b).contains(("total_requests"@, b.total_requests)),
        bucket_metrics(b).contains(("total_retries"@, b.total_retries)),
        b.remaining matches Some(n) ==> bucket_metrics(b).contains(("remaining"@, n)),
        forall|n: u64| #[trigger] bucket_metrics(b).contains(("remaining"@, n)) ==> b.remaining == Some(n),
{
    reveal_strlit("total_requests");
    reveal_strlit("total_retries");
    reveal_strlit("remaining");
    let m = bucket_metrics(b);
    assert(m[0] == ("total_requests"@, b.total_requests));
    assert(m[1] == ("total_retries"@, b.total_retries));
    assert("total_requests"@.len() != "remaining"@.len());
    assert("total_retries"@.len() != "remaining"@.len());
    if let Some(n) = b.remaining {
        assert(m[2] == ("remaining"@, n));
    }
}

// ----------------------------------------------------------------- statuses

/// Only status 429 is a rate limit; every 2xx status is a success and every
/// other status is a failure.
pub proof fn law_only_429_is_rate_limit(status: u16)
    ensures
        (class_of(status) == ResponseClass::RateLimited) <==> status == 429,
        (class_of(status) == ResponseClass::Success) <==> (200 <= status && status <= 299),
        (status < 200 || status > 299) && status != 429 ==> class_of(status) == ResponseClass::Failure,
{
}

// ------------------------------------------------------------------- models

proof fn lemma_member_of_extended(entries: Seq<(String, Json)>, extra: (String, Json), key: Seq<char>)
    requires
        member(entries, key) is Some,
    ensures
        member(entries.push(extra), key) == member(entries, key),
    decreases entries.len(),
{
    if entries[0].0@ != key {
        assert(entries.push(extra).drop_first() =~= entries.drop_first().push(extra));
        lemma_member_of_extended(entries.drop_first(), extra, key);
    }
}

/// Objects decode whatever members they hold: every JSON object decodes as a
/// struct of any number of fields, and adding a member to an object keeps it
/// decodable and keeps each field already present where it was.
pub proof fn law_objects_always_decode(
    entries: Vec<(String, Json)>,
    more: Vec<(String, Json)>,
    fields: nat,
    name: Seq<char>,
    index: int,
)
    requires
        more@ == entries@.push(more@.last()),
        field_slot(Json::Object(entries), name, index) is Some,
    ensures
        decodes_as_struct(Json::Object(entries), fields),
        decodes_as_struct(Json::Object(more), fields),
        field_slot(Json::Object(more), name, index) == field_slot(Json::Object(entries), name, index),
{
    lemma_member_of_extended(entries@, more@.last(), name);
}

// ----------------------------------------------------------------- playback

/// Stopping keeps the player attached: the connection is the same after a
/// stop, so whatever could be played before can be played after, and playing
/// after a stop starts a track exactly when the attached connection is
/// connected.
pub proof fn law_stop_keeps_attachment(s: Playback)
    ensures
        after_stop(s).connection == s.connection,
        can_play(after_stop(s)) == can_play(s),
        can_play(s) ==> sounding(after_play(after_stop(s))),
        !can_play(s) ==> !sounding(after_play(after_stop(s))),
{
}

} // verus!
