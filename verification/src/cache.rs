//! Bodies of successful `GET` responses, kept by URL.

use vstd::prelude::*;

use crate::method::HttpMethod;
use crate::tables::{body_table_get, body_table_insert, cached_bodies, new_body_table, BodyMap};

verus! {

/// Bodies of successful `GET` responses, by request URL.
pub struct ResponseCache {
    bodies: BodyMap,
}

impl View for ResponseCache {
    type V = Map<Seq<char>, Seq<u8>>;

    closed spec fn view(&self) -> Map<Seq<char>, Seq<u8>> {
        cached_bodies(self.bodies)
    }
}

/// What the cache answers for a request: the cached body of a `GET` request
/// whose URL it holds, nothing otherwise.
pub open spec fn cached_answer(c: Map<Seq<char>, Seq<u8>>, method: HttpMethod, url: Seq<char>) -> Option<
    Seq<u8>,
> {
    if method == HttpMethod::Get && c.contains_key(url) {
        Some(c[url])
    } else {
        None
    }
}

/// The cache after keeping the body of a successful response: `GET` bodies
/// replace what was cached for the URL, other bodies are not kept.
pub open spec fn cache_after_store(
    c: Map<Seq<char>, Seq<u8>>,
    method: HttpMethod,
    url: Seq<char>,
    body: Seq<u8>,
) -> Map<Seq<char>, Seq<u8>> {
    if method == HttpMethod::Get {
        c.insert(url, body)
    } else {
        c
    }
}

/// The view of an optional body.
pub open spec fn body_view(b: Option<Vec<u8>>) -> Option<Seq<u8>> {
    match b {
        Some(v) => Some(v@),
        None => None,
    }
}

impl ResponseCache {
    /// An empty cache.
    pub fn new() -> (c: Self)
        ensures
            c@ == Map::<Seq<char>, Seq<u8>>::empty(),
    {
        let c = ResponseCache { bodies: new_body_table() };
        assert(c@ =~= Map::<Seq<char>, Seq<u8>>::empty());
        c
    }

    /// The cached body for a request, if there is one: only `GET` requests
    /// are answered from the cache.
    pub fn lookup(&self, method: HttpMethod, url: &str) -> (r: Option<Vec<u8>>)
        ensures
            body_view(r) == cached_answer(self@, method, url@),
    {
        if method.is_get() {
            body_table_get(&self.bodies, url)
        } else {
            None
        }
    }

    /// Keeps the body of a successful response: only `GET` responses are kept,
    /// replacing what was cached for the same URL.
    pub fn store(&mut self, method: HttpMethod, url: &str, body: Vec<u8>)
        ensures
            final(self)@ == cache_after_store(old(self)@, method, url@, body@),
    {
        if method.is_get() {
            body_table_insert(&mut self.bodies, url.to_owned(), body);
        }
    }
}

} // verus!
