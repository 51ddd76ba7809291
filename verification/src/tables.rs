//! The concurrent maps that hold rate-limit buckets and cached responses,
//! and the trusted contracts of the `dashmap` operations the library uses.

use vstd::prelude::*;

use dashmap::DashMap;

use crate::bucket::RateLimitBucket;

verus! {

/// `dashmap::DashMap`, carried through verified code as an opaque value.
#[verifier::external_type_specification]
#[verifier::external_body]
#[verifier::reject_recursive_types(K)]
#[verifier::reject_recursive_types(V)]
#[verifier::reject_recursive_types(S)]
pub struct ExDashMap<K, V, S>(DashMap<K, V, S>);

/// A concurrent map from bucket keys to rate-limit buckets.
pub type BucketMap = DashMap<String, RateLimitBucket>;

/// A concurrent map from request URLs to response bodies.
pub type BodyMap = DashMap<String, Vec<u8>>;

/// What a map of rate-limit buckets holds: each key's characters to its bucket.
pub uninterp spec fn bucket_table(m: DashMap<String, RateLimitBucket>) -> Map<
    Seq<char>,
    RateLimitBucket,
>;

/// What a response cache holds: each URL's characters to the cached body.
pub uninterp spec fn cached_bodies(m: DashMap<String, Vec<u8>>) -> Map<Seq<char>, Seq<u8>>;

/// Calls `DashMap::new`; claims the new map holds no bucket.
#[verifier::external_body]
pub(crate) fn new_bucket_table() -> (table: BucketMap)
    ensures
        bucket_table(table).dom().is_empty(),
{
    DashMap::new()
}

/// Calls `DashMap::get` and copies the bucket out; claims the result is the
/// bucket stored under `key`, or `None` when there is none.
#[verifier::external_body]
pub(crate) fn bucket_table_get(t: &DashMap<String, RateLimitBucket>, key: &str) -> (r: Option<
    RateLimitBucket,
>)
    ensures
        r == (if bucket_table(*t).contains_key(key@) {
            Some(bucket_table(*t)[key@])
        } else {
            None
        }),
{
    t.get(key).map(|entry| *entry.value())
}

/// Calls `DashMap::insert`; claims the map afterwards holds `b` under `key`
/// and is otherwise unchanged.
#[verifier::external_body]
pub(crate) fn bucket_table_insert(
    t: &mut DashMap<String, RateLimitBucket>,
    key: String,
    b: RateLimitBucket,
)
    ensures
        bucket_table(*final(t)) == bucket_table(*old(t)).insert(key@, b),
{
    t.insert(key, b);
}

/// Walks the map with `DashMap::iter`, copying each entry; claims every entry
/// comes out exactly once. The order of the entries is the map's internal
/// order, which the contract leaves open.
#[verifier::external_body]
pub(crate) fn bucket_table_entries(t: &DashMap<String, RateLimitBucket>) -> (r: Vec<
    (String, RateLimitBucket),
>)
    ensures
        forall|i: int|
            #![trigger r@[i]]
            0 <= i < r@.len() ==> bucket_table(*t).contains_key(r@[i].0@) && bucket_table(
                *t,
            )[r@[i].0@] == r@[i].1,
        forall|i: int, j: int|
            #![trigger r@[i], r@[j]]
            0 <= i < r@.len() && 0 <= j < r@.len() && i != j ==> r@[i].0@ != r@[j].0@,
        forall|k: Seq<char>|
            #![trigger bucket_table(*t).contains_key(k)]
            bucket_table(*t).contains_key(k) ==> exists|i: int|
                0 <= i < r@.len() && #[trigger] r@[i].0@ == k,
{
    t.iter().map(|entry| (entry.key().clone(), *entry.value())).collect()
}

/// Calls `DashMap::new`; claims the new cache holds no body.
#[verifier::external_body]
pub(crate) fn new_body_table() -> (table: BodyMap)
    ensures
        cached_bodies(table).dom().is_empty(),
{
    DashMap::new()
}

/// Calls `DashMap::get` and copies the body out; claims the result is the body
/// stored under `key`, or `None` when there is none.
#[verifier::external_body]
pub(crate) fn body_table_get(t: &DashMap<String, Vec<u8>>, key: &str) -> (r: Option<Vec<u8>>)
    ensures
        match r {
            Some(v) => cached_bodies(*t).contains_key(key@) && v@ == cached_bodies(*t)[key@],
            None => !cached_bodies(*t).contains_key(key@),
        },
{
    t.get(key).map(|entry| entry.value().clone())
}

/// Calls `DashMap::insert`; claims the cache afterwards holds `body` under
/// `key` and is otherwise unchanged.
#[verifier::external_body]
pub(crate) fn body_table_insert(t: &mut DashMap<String, Vec<u8>>, key: String, body: Vec<u8>)
    ensures
        cached_bodies(*final(t)) == cached_bodies(*old(t)).insert(key@, body@),
{
    t.insert(key, body);
}

} // verus!
